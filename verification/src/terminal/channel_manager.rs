//! Output kept for a pane whose view is not attached yet.
//!
//! The queue holds the latest chunks only: after each chunk, the oldest
//! ones are dropped until at most `MAX_PENDING_CHUNKS` chunks of at most
//! `MAX_PENDING_BYTES` bytes in all are left.
use vstd::prelude::*;

verus! {

pub const MAX_PENDING_CHUNKS: usize = 64;

pub const MAX_PENDING_BYTES: usize = 65536;

/// The number of bytes in all the chunks.
pub open spec fn total_len(s: Seq<Seq<u8>>) -> nat
    decreases s.len(),
{
    if s.len() == 0 {
        0
    } else {
        total_len(s.drop_last()) + s.last().len()
    }
}

/// Whether the chunks are within both limits.
pub open spec fn within_limits(s: Seq<Seq<u8>>) -> bool {
    total_len(s) <= MAX_PENDING_BYTES && s.len() <= MAX_PENDING_CHUNKS
}

/// The chunks left once the oldest are dropped until both limits hold.
pub open spec fn trim_front(s: Seq<Seq<u8>>) -> Seq<Seq<u8>>
    decreases s.len(),
{
    if within_limits(s) || s.len() == 0 {
        s
    } else {
        trim_front(s.drop_first())
    }
}

/// The total of a sequence is that of its first element plus the rest's.
proof fn lemma_total_first(s: Seq<Seq<u8>>)
    requires
        s.len() > 0,
    ensures
        total_len(s) == s[0].len() + total_len(s.drop_first()),
    decreases s.len(),
{
    if s.len() == 1 {
        assert(total_len(s.drop_first()) == 0);
        assert(total_len(s.drop_last()) == 0);
        assert(s.last() == s[0]);
    } else {
        lemma_total_first(s.drop_last());
        assert(s.drop_last().drop_first() =~= s.drop_first().drop_last());
        assert(s.drop_first().last() == s.last());
    }
}

/// The queue of one pane.
#[derive(Debug, Clone)]
pub struct PendingQueue {
    total_bytes: usize,
    chunks: Vec<Vec<u8>>,
}

impl View for PendingQueue {
    type V = Seq<Seq<u8>>;

    closed spec fn view(&self) -> Seq<Seq<u8>> {
        self.chunks@.map_values(|c: Vec<u8>| c@)
    }
}

impl PendingQueue {
    /// The byte count matches the chunks, which are within the limits.
    pub closed spec fn wf(&self) -> bool {
        &&& self.total_bytes == total_len(self@)
        &&& within_limits(self@)
    }

    pub fn new() -> (r: Self)
        ensures
            r.wf(),
            r@.len() == 0,
    {
        let r = PendingQueue { total_bytes: 0, chunks: Vec::new() };
        assert(r@ =~= Seq::<Seq<u8>>::empty());
        r
    }

    /// Adds a chunk after the others, then drops the oldest chunks until
    /// the queue is within its limits.
    pub fn push(&mut self, data: &[u8])
        requires
            old(self).wf(),
        ensures
            final(self).wf(),
            final(self)@ == trim_front(old(self)@.push(data@)),
    {
        let ghost s0 = self@;
        let mut chunk: Vec<u8> = Vec::new();
        let mut i: usize = 0;
        while i < data.len()
            invariant
                i <= data@.len(),
                chunk@ == data@.take(i as int),
            decreases data.len() - i,
        {
            chunk.push(data[i]);
            assert(data@.take(i + 1) =~= data@.take(i as int).push(data@[i as int]));
            i += 1;
        }
        assert(data@.take(data@.len() as int) =~= data@);
        let n = chunk.len();
        self.chunks.push(chunk);
        assert(self@ =~= s0.push(data@));
        assert(s0.push(data@).drop_last() =~= s0);
        // the total fits: it is at most the limit plus the new chunk
        let mut total: u128 = self.total_bytes as u128 + n as u128;
        while (total > MAX_PENDING_BYTES as u128 || self.chunks.len() > MAX_PENDING_CHUNKS)
            && self.chunks.len() > 0
            invariant
                total == total_len(self@),
                trim_front(self@) == trim_front(s0.push(data@)),
                total <= MAX_PENDING_BYTES + data@.len(),
            decreases self.chunks.len(),
        {
            let ghost before = self@;
            let removed = self.chunks.remove(0);
            proof {
                lemma_total_first(before);
                assert(self@ =~= before.drop_first());
            }
            total = total - removed.len() as u128;
        }
        proof {
            if self@.len() == 0 {
                assert(total_len(self@) == 0);
            }
            assert(within_limits(self@));
            assert(trim_front(self@) == self@);
        }
        self.total_bytes = total as usize;
    }

    /// The chunks, oldest first.
    pub fn drain(self) -> (r: Vec<Vec<u8>>)
        ensures
            r@.map_values(|c: Vec<u8>| c@) == self@,
    {
        self.chunks
    }

    /// The number of bytes held.
    pub fn total_bytes(&self) -> (r: usize)
        requires
            self.wf(),
        ensures
            r == total_len(self@),
    {
        self.total_bytes
    }
}

/// Trimming keeps the latest chunks in order, within both limits: what is
/// left is a suffix of what was there, and no longer one would fit.
pub proof fn law_trim_keeps_latest(s: Seq<Seq<u8>>)
    ensures
        within_limits(trim_front(s)) || trim_front(s).len() == 0,
        exists|k: int| 0 <= k <= s.len() && trim_front(s) == s.skip(k),
    decreases s.len(),
{
    if within_limits(s) || s.len() == 0 {
        assert(s.skip(0) =~= s);
    } else {
        law_trim_keeps_latest(s.drop_first());
        let k = choose|k: int|
            0 <= k <= s.drop_first().len() && trim_front(s.drop_first()) == s.drop_first().skip(k);
        assert(s.drop_first().skip(k) =~= s.skip(k + 1));
    }
}


/// Trimming keeps the last chunk exactly when it fits alone; a chunk that
/// does not fit leaves nothing.
proof fn lemma_trim_last(t: Seq<Seq<u8>>)
    requires
        t.len() > 0,
    ensures
        t.last().len() <= MAX_PENDING_BYTES ==> trim_front(t).len() > 0 && trim_front(t).last() == t.last(),
        t.last().len() > MAX_PENDING_BYTES ==> trim_front(t).len() == 0,
    decreases t.len(),
{
    assert(total_len(t) == total_len(t.drop_last()) + t.last().len());
    if within_limits(t) {
    } else if t.len() == 1 {
        assert(t.drop_last().len() == 0);
        assert(total_len(t.drop_last()) == 0);
        assert(t.drop_first().len() == 0);
        assert(trim_front(t.drop_first()) == t.drop_first());
    } else {
        lemma_trim_last(t.drop_first());
        assert(t.drop_first().last() == t.last());
    }
}

/// After a chunk is queued, the queue ends with that chunk when it fits
/// within the byte limit on its own; a larger chunk leaves the queue empty.
pub proof fn law_push_keeps_latest_chunk(s: Seq<Seq<u8>>, data: Seq<u8>)
    ensures
        data.len() <= MAX_PENDING_BYTES ==> trim_front(s.push(data)).len() > 0 && trim_front(
            s.push(data),
        ).last() == data,
        data.len() > MAX_PENDING_BYTES ==> trim_front(s.push(data)).len() == 0,
{
    lemma_trim_last(s.push(data));
}

} // verus!
