//! The session-state file format.
//!
//! A state file is a 46-byte header followed by the MessagePack payload:
//! the magic `OXMP`, the format version, a flag byte (bit 0: the payload is
//! gzip-compressed, bit 1: the header holds its SHA-256), the payload length
//! as a little-endian `u64`, and 32 bytes of checksum (zeros when unused).
use vstd::prelude::*;
use crate::storage::backups::{has_bak_extension, is_bak_name};
use crate::storage::codec::{gunzip, gzip, gzip_decompress, sha256, sha256_digest};
use crate::storage::paths::{join_path, path_join, StoragePaths, SESSION_STATE_FILE_NAME};
use crate::text::{decimal, digit_char, push_decimal, string_of};

verus! {

pub const VERSION: u8 = 1;
pub const FLAG_COMPRESSED: u8 = 1;
pub const FLAG_CHECKSUM: u8 = 2;
pub const HEADER_LEN: usize = 46;

/// Errors of the state-file layer.
#[derive(Debug, Clone, PartialEq, Eq)]
pub enum MessagePackError {
    Encode(String),
    Decode(String),
    Io { context: String, source: String },
    PayloadTooLarge { size: usize, max: usize },
    InvalidHeader,
    InvalidMagic,
    UnsupportedVersion { version: u8 },
    LengthMismatch,
    ChecksumFailed,
    RestoreFailed,
    Internal(String),
}

impl MessagePackError {
    pub fn io(context: String, source: String) -> (r: Self)
        ensures
            r == (MessagePackError::Io { context, source }),
    {
        MessagePackError::Io { context, source }
    }

    pub fn internal(message: String) -> (r: Self)
        ensures
            r == MessagePackError::Internal(message),
    {
        MessagePackError::Internal(message)
    }
}

/// How state files are written.
#[derive(Debug, Clone)]
pub struct MessagePackOptions {
    pub compression: bool,
    pub backup_count: usize,
    pub checksum_validation: bool,
    pub max_file_size: usize,
}

impl Default for MessagePackOptions {
    fn default() -> (r: Self)
        ensures
            r.compression,
            r.backup_count == 3,
            r.checksum_validation,
            r.max_file_size == 10 * 1024 * 1024,
    {
        MessagePackOptions {
            compression: true,
            backup_count: 3,
            checksum_validation: true,
            max_file_size: 10 * 1024 * 1024,
        }
    }
}

/// `OXMP`
pub open spec fn magic() -> Seq<u8> {
    seq![0x4Fu8, 0x58u8, 0x4Du8, 0x50u8]
}

pub open spec fn pow256(k: nat) -> nat
    decreases k,
{
    if k == 0 {
        1
    } else {
        256 * pow256((k - 1) as nat)
    }
}

/// The `k` low bytes of `n`, least significant first.
pub open spec fn le_bytes(n: nat, k: nat) -> Seq<u8>
    decreases k,
{
    if k == 0 {
        Seq::empty()
    } else {
        seq![(n % 256) as u8] + le_bytes(n / 256, (k - 1) as nat)
    }
}

/// The number that little-endian bytes denote.
pub open spec fn le_value(b: Seq<u8>) -> nat
    decreases b.len(),
{
    if b.len() == 0 {
        0
    } else {
        b[0] as nat + 256 * le_value(b.drop_first())
    }
}

pub proof fn lemma_le_roundtrip(n: nat, k: nat)
    requires
        n < pow256(k),
    ensures
        le_bytes(n, k).len() == k,
        le_value(le_bytes(n, k)) == n,
    decreases k,
{
    if k > 0 {
        let p = pow256((k - 1) as nat);
        assert(n / 256 < p) by (nonlinear_arith)
            requires
                n < 256 * p,
        ;
        lemma_le_roundtrip(n / 256, (k - 1) as nat);
        let b = le_bytes(n, k);
        assert(b.drop_first() =~= le_bytes(n / 256, (k - 1) as nat));
        assert((n % 256) + 256 * (n / 256) == n) by (nonlinear_arith);
    }
}

pub proof fn lemma_le_value_bound(b: Seq<u8>)
    ensures
        le_value(b) < pow256(b.len()),
    decreases b.len(),
{
    if b.len() > 0 {
        lemma_le_value_bound(b.drop_first());
        let v = le_value(b.drop_first());
        let p = pow256((b.len() - 1) as nat);
        assert(b[0] as nat + 256 * v < 256 * p) by (nonlinear_arith)
            requires
                v < p,
                b[0] < 256,
        ;
    }
}

/// Writes `n` as 8 little-endian bytes.
fn push_le_u64(out: &mut Vec<u8>, n: u64)
    ensures
        final(out)@ == old(out)@ + le_bytes(n as nat, 8),
{
    let mut x: u64 = n;
    let mut i: usize = 0;
    while i < 8
        invariant
            i <= 8,
            out@ + le_bytes(x as nat, (8 - i) as nat) == old(out)@ + le_bytes(n as nat, 8),
        decreases 8 - i,
    {
        let ghost pre = out@;
        out.push((x % 256) as u8);
        proof {
            let rest = le_bytes(x as nat, (8 - i) as nat);
            assert(rest == seq![(x % 256) as u8] + le_bytes((x / 256) as nat, (7 - i) as nat));
            assert(out@ + le_bytes((x / 256) as nat, (7 - i) as nat) =~= pre + rest);
        }
        x = x / 256;
        i += 1;
    }
    assert(le_bytes(x as nat, 0) =~= Seq::<u8>::empty());
    assert(out@ =~= out@ + le_bytes(x as nat, 0));
}

/// The number that the 8 bytes `b[lo..lo + 8]` denote, little-endian.
fn read_le_u64(b: &[u8], lo: usize) -> (r: u64)
    requires
        lo + 8 <= b@.len(),
    ensures
        r == le_value(b@.subrange(lo as int, lo + 8)),
{
    let n = b.len();
    assert(lo + 8 <= n);
    let mut acc: u128 = 0;
    let mut i: usize = lo + 8;
    while i > lo
        invariant
            lo <= i <= lo + 8,
            lo + 8 <= b@.len(),
            acc == le_value(b@.subrange(i as int, lo + 8)),
        decreases i,
    {
        proof {
            lemma_le_value_bound(b@.subrange(i as int, lo + 8));
            let s = b@.subrange(i - 1, lo + 8);
            assert(s.drop_first() =~= b@.subrange(i as int, lo + 8));
            assert(pow256((lo + 8 - i) as nat) <= pow256(7)) by {
                lemma_pow256_mono((lo + 8 - i) as nat, 7);
            }
            assert(pow256(7) == 72057594037927936) by { reveal_with_fuel(pow256, 9); }
        }
        acc = acc * 256 + b[i - 1] as u128;
        i -= 1;
    }
    proof {
        lemma_le_value_bound(b@.subrange(lo as int, lo + 8));
        assert(pow256(8) == 18446744073709551616) by { reveal_with_fuel(pow256, 9); }
    }
    acc as u64
}

proof fn lemma_pow256_mono(a: nat, b: nat)
    requires
        a <= b,
    ensures
        pow256(a) <= pow256(b),
    decreases b,
{
    if a < b {
        lemma_pow256_mono(a, (b - 1) as nat);
    }
}

/// The flag byte for a compressed and/or checksummed payload.
pub open spec fn state_flags(compressed: bool, checksum: bool) -> u8 {
    if compressed && checksum {
        3u8
    } else if compressed {
        1u8
    } else if checksum {
        2u8
    } else {
        0u8
    }
}

/// A complete state file: header, then the stored payload.
pub open spec fn state_file(body: Seq<u8>, compressed: bool, checksum: bool) -> Seq<u8> {
    magic() + seq![VERSION, state_flags(compressed, checksum)] + le_bytes(body.len(), 8) + (
    if checksum {
        sha256_digest(body)
    } else {
        Seq::new(32, |i: int| 0u8)
    }) + body
}

/// What the reader finds in a state file.
pub enum StateFileOutcome {
    TooShort,
    BadMagic,
    BadVersion(u8),
    BadLength,
    BadChecksum,
    /// a gzip-compressed payload
    Compressed(Seq<u8>),
    /// a plain payload
    Plain(Seq<u8>),
}

/// The checks the reader makes, in order.
pub open spec fn state_file_outcome(data: Seq<u8>) -> StateFileOutcome {
    if data.len() < HEADER_LEN {
        StateFileOutcome::TooShort
    } else if data.take(4) != magic() {
        StateFileOutcome::BadMagic
    } else if data[4] != VERSION {
        StateFileOutcome::BadVersion(data[4])
    } else if HEADER_LEN + le_value(data.subrange(6, 14)) != data.len() {
        StateFileOutcome::BadLength
    } else if data[5] & FLAG_CHECKSUM != 0 && sha256_digest(data.skip(HEADER_LEN as int))
        != data.subrange(14, 46) {
        StateFileOutcome::BadChecksum
    } else if data[5] & FLAG_COMPRESSED != 0 {
        StateFileOutcome::Compressed(data.skip(HEADER_LEN as int))
    } else {
        StateFileOutcome::Plain(data.skip(HEADER_LEN as int))
    }
}

/// The bytes `data[lo..]`.
pub fn bytes_from(data: &[u8], lo: usize) -> (r: Vec<u8>)
    requires
        lo <= data@.len(),
    ensures
        r@ == data@.skip(lo as int),
{
    let mut out: Vec<u8> = Vec::new();
    let mut i: usize = lo;
    while i < data.len()
        invariant
            lo <= i <= data@.len(),
            out@ == data@.subrange(lo as int, i as int),
        decreases data.len() - i,
    {
        out.push(data[i]);
        assert(data@.subrange(lo as int, i + 1) =~= data@.subrange(lo as int, i as int).push(
            data@[i as int],
        ));
        i += 1;
    }
    assert(data@.subrange(lo as int, data@.len() as int) =~= data@.skip(lo as int));
    out
}

/// `data` is a state file written from `payload` with options `o`: the
/// stored payload is `payload` itself or, with compression, a gzip stream of
/// it, and it fits within `max_file_size`.
pub open spec fn written_state_file(o: MessagePackOptions, payload: Seq<u8>, data: Seq<u8>) -> bool {
    exists|body: Seq<u8>|
        {
            &&& (if o.compression {
                gzip_decompress(body) == Some(payload)
            } else {
                body == payload
            })
            &&& body.len() <= o.max_file_size
            &&& (o.checksum_validation ==> sha256_digest(body).len() == 32)
            &&& data == #[trigger] state_file(body, o.compression, o.checksum_validation)
        }
}

/// Reads and writes the session-state file.
pub struct MessagePackManager {
    pub paths: StoragePaths,
    pub options: MessagePackOptions,
}

impl MessagePackManager {
    /// A manager over `paths`; creating the state directory is file-system
    /// work, which the caller does.
    pub fn new(paths: StoragePaths, options: MessagePackOptions) -> (r: Self)
        ensures
            r.paths == paths,
            r.options == options,
    {
        MessagePackManager { paths, options }
    }

    /// Frames a MessagePack payload as a state file: compressed when the
    /// options ask for it, refused when the stored payload is larger than
    /// `max_file_size`, with the SHA-256 of the stored payload when the
    /// options ask for checksums.
    pub fn serialize_state(&self, payload: &[u8]) -> (r: Result<Vec<u8>, MessagePackError>)
        ensures
            match r {
                Ok(data) => written_state_file(self.options, payload@, data@),
                Err(e) => {
                    ||| (self.options.compression && e is Io)
                    ||| (e matches MessagePackError::PayloadTooLarge { size, max } && max
                        == self.options.max_file_size && size > max)
                },
            },
            !self.options.compression ==> (r is Ok <==> payload@.len()
                <= self.options.max_file_size),
    {
        let body: Vec<u8> = if self.options.compression {
            match gzip(payload) {
                Ok(v) => v,
                Err(e) => {
                    let ctx = crate::text::owned("compress state payload");
                    return Err(MessagePackError::io(ctx, e));
                },
            }
        } else {
            let v = bytes_from(payload, 0);
            assert(v@ =~= payload@);
            v
        };
        if body.len() > self.options.max_file_size {
            return Err(
                MessagePackError::PayloadTooLarge {
                    size: body.len(),
                    max: self.options.max_file_size,
                },
            );
        }
        let flags: u8 = if self.options.compression && self.options.checksum_validation {
            3u8
        } else if self.options.compression {
            1u8
        } else if self.options.checksum_validation {
            2u8
        } else {
            0u8
        };
        let mut out: Vec<u8> = Vec::new();
        out.push(0x4F);
        out.push(0x58);
        out.push(0x4D);
        out.push(0x50);
        out.push(VERSION);
        out.push(flags);
        proof {
            assert(body@.len() < pow256(8)) by {
                assert(pow256(8) == 18446744073709551616) by { reveal_with_fuel(pow256, 9); }
            }
        }
        push_le_u64(&mut out, body.len() as u64);
        let ghost header_start = out@;
        if self.options.checksum_validation {
            let digest = sha256(body.as_slice());
            let mut k: usize = 0;
            while k < 32
                invariant
                    k <= 32,
                    digest@.len() == 32,
                    out@ == header_start + digest@.take(k as int),
                decreases 32 - k,
            {
                out.push(digest[k]);
                assert(digest@.take(k + 1) =~= digest@.take(k as int).push(digest@[k as int]));
                k += 1;
            }
            assert(digest@.take(32) =~= digest@);
        } else {
            let mut k: usize = 0;
            while k < 32
                invariant
                    k <= 32,
                    out@ == header_start + Seq::new(k as nat, |i: int| 0u8),
                decreases 32 - k,
            {
                out.push(0u8);
                assert(Seq::new((k + 1) as nat, |i: int| 0u8) =~= Seq::new(
                    k as nat,
                    |i: int| 0u8,
                ).push(0u8));
                k += 1;
            }
        }
        let ghost before_body = out@;
        let mut j: usize = 0;
        while j < body.len()
            invariant
                j <= body@.len(),
                out@ == before_body + body@.take(j as int),
            decreases body.len() - j,
        {
            out.push(body[j]);
            assert(body@.take(j + 1) =~= body@.take(j as int).push(body@[j as int]));
            j += 1;
        }
        proof {
            assert(body@.take(body@.len() as int) =~= body@);
            assert(out@ =~= state_file(
                body@,
                self.options.compression,
                self.options.checksum_validation,
            ));
            assert(if self.options.compression {
                gzip_decompress(body@) == Some(payload@)
            } else {
                body@ == payload@
            });
            assert(body@.len() <= self.options.max_file_size);
            assert(written_state_file(self.options, payload@, out@));
        }
        Ok(out)
    }

    /// Reads a state file back to its MessagePack payload, checking the
    /// header in the order `state_file_outcome` gives and decompressing a
    /// compressed payload.
    #[verifier::loop_isolation(false)]
    pub fn deserialize_state(&self, data: &[u8]) -> (r: Result<Vec<u8>, MessagePackError>)
        ensures
            match state_file_outcome(data@) {
                StateFileOutcome::TooShort => r == Err::<Vec<u8>, MessagePackError>(
                    MessagePackError::InvalidHeader,
                ),
                StateFileOutcome::BadMagic => r == Err::<Vec<u8>, MessagePackError>(
                    MessagePackError::InvalidMagic,
                ),
                StateFileOutcome::BadVersion(v) => r == Err::<Vec<u8>, MessagePackError>(
                    MessagePackError::UnsupportedVersion { version: v },
                ),
                StateFileOutcome::BadLength => r == Err::<Vec<u8>, MessagePackError>(
                    MessagePackError::LengthMismatch,
                ),
                StateFileOutcome::BadChecksum => r == Err::<Vec<u8>, MessagePackError>(
                    MessagePackError::ChecksumFailed,
                ),
                StateFileOutcome::Compressed(p) => match gzip_decompress(p) {
                    Some(q) => r matches Ok(v) && v@ == q,
                    None => r matches Err(MessagePackError::Io { .. }),
                },
                StateFileOutcome::Plain(p) => r matches Ok(v) && v@ == p,
            },
    {
        if data.len() < HEADER_LEN {
            return Err(MessagePackError::InvalidHeader);
        }
        if !(data[0] == 0x4F && data[1] == 0x58 && data[2] == 0x4D && data[3] == 0x50) {
            proof {
                if data@.take(4) == magic() {
                    assert(data@.take(4)[0] == data@[0]);
                    assert(data@.take(4)[1] == data@[1]);
                    assert(data@.take(4)[2] == data@[2]);
                    assert(data@.take(4)[3] == data@[3]);
                }
            }
            return Err(MessagePackError::InvalidMagic);
        }
        assert(data@.take(4) =~= magic());
        if data[4] != VERSION {
            return Err(MessagePackError::UnsupportedVersion { version: data[4] });
        }
        let flags = data[5];
        let payload_len = read_le_u64(data, 6);
        if payload_len as u128 + 46 != data.len() as u128 {
            return Err(MessagePackError::LengthMismatch);
        }
        let payload = bytes_from(data, 46);
        if flags & FLAG_CHECKSUM != 0 {
            let digest = sha256(payload.as_slice());
            let mut k: usize = 0;
            while k < 32
                invariant
                    k <= 32,
                    digest@.len() == 32,
                    data@.len() >= 46,
                    forall|i: int| 0 <= i < k ==> digest@[i] == data@[14 + i],
                decreases 32 - k,
            {
                if digest[k] != data[14 + k] {
                    proof {
                        assert(data@.subrange(14, 46)[k as int] == data@[14 + k]);
                        assert(digest@ != data@.subrange(14, 46));
                        assert(digest@ == sha256_digest(data@.skip(HEADER_LEN as int)));
                    }
                    return Err(MessagePackError::ChecksumFailed);
                }
                k += 1;
            }
            assert(digest@ =~= data@.subrange(14, 46));
        }
        if flags & FLAG_COMPRESSED != 0 {
            match gunzip(payload.as_slice()) {
                Ok(v) => Ok(v),
                Err(e) => {
                    let ctx = crate::text::owned("decompress state payload");
                    Err(MessagePackError::io(ctx, e))
                },
            }
        } else {
            Ok(payload)
        }
    }

    /// `state/session_state.msgpack`
    pub fn get_state_file_path(&self) -> (r: String)
        ensures
            r@ == path_join(self.paths.state_dir@, SESSION_STATE_FILE_NAME@),
    {
        join_path(self.paths.state_dir.as_str(), SESSION_STATE_FILE_NAME)
    }

    /// `backups/state`
    pub fn get_backup_directory(&self) -> (r: String)
        ensures
            r@ == path_join(self.paths.backups_dir@, "state"@),
    {
        join_path(self.paths.backups_dir.as_str(), "state")
    }
}

/// A state file whose flags ask for a checksum is read back only when the
/// SHA-256 of its stored payload equals the 32 bytes kept for it in the
/// header (bytes 14 to 46); a file with a well-formed header whose kept
/// digest differs is refused as failing its checksum.
pub proof fn law_checksum_guards_payload(data: Seq<u8>)
    ensures
        (state_file_outcome(data) is Compressed || state_file_outcome(data) is Plain) && data[5]
            & FLAG_CHECKSUM != 0 ==> sha256_digest(data.skip(46)) == data.subrange(14, 46),
        data.len() >= 46 && data.take(4) == magic() && data[4] == VERSION && 46 + le_value(
            data.subrange(6, 14),
        ) == data.len() && data[5] & FLAG_CHECKSUM != 0 && sha256_digest(data.skip(46))
            != data.subrange(14, 46) ==> state_file_outcome(data) == StateFileOutcome::BadChecksum,
        state_file_outcome(data) matches StateFileOutcome::Plain(p) ==> p == data.skip(46),
{
}

/// Whatever the options, a state file that `serialize_state` wrote from a
/// payload reads back to that payload: its header passes every check, and
/// the stored payload is the payload itself or a gzip stream of it.
pub proof fn law_state_file_roundtrip(o: MessagePackOptions, payload: Seq<u8>, data: Seq<u8>)
    requires
        written_state_file(o, payload, data),
    ensures
        o.compression ==> (state_file_outcome(data) matches StateFileOutcome::Compressed(p)
            && gzip_decompress(p) == Some(payload)),
        !o.compression ==> state_file_outcome(data) == StateFileOutcome::Plain(payload),
{
    let body = choose|body: Seq<u8>|
        {
            &&& (if o.compression {
                gzip_decompress(body) == Some(payload)
            } else {
                body == payload
            })
            &&& body.len() <= o.max_file_size
            &&& (o.checksum_validation ==> sha256_digest(body).len() == 32)
            &&& data == #[trigger] state_file(body, o.compression, o.checksum_validation)
        };
    let compressed = o.compression;
    let checksum = o.checksum_validation;
    let f = state_flags(compressed, checksum);
    assert(body.len() < pow256(8)) by {
        assert(pow256(8) == 18446744073709551616) by { reveal_with_fuel(pow256, 9); }
    }
    lemma_le_roundtrip(body.len(), 8);
    let cs = if checksum {
        sha256_digest(body)
    } else {
        Seq::new(32, |i: int| 0u8)
    };
    assert(data.take(4) =~= magic());
    assert(data[4] == VERSION);
    assert(data[5] == f);
    assert(data.subrange(6, 14) =~= le_bytes(body.len(), 8));
    assert(data.subrange(14, 46) =~= cs);
    assert(data.skip(46) =~= body);
    assert(f & FLAG_CHECKSUM != 0 <==> checksum) by {
        assert(0u8 & 2u8 == 0u8) by (bit_vector);
        assert(1u8 & 2u8 == 0u8) by (bit_vector);
        assert(2u8 & 2u8 != 0u8) by (bit_vector);
        assert(3u8 & 2u8 != 0u8) by (bit_vector);
    }
    assert(f & FLAG_COMPRESSED != 0 <==> compressed) by {
        assert(0u8 & 1u8 == 0u8) by (bit_vector);
        assert(1u8 & 1u8 != 0u8) by (bit_vector);
        assert(2u8 & 1u8 == 0u8) by (bit_vector);
        assert(3u8 & 1u8 != 0u8) by (bit_vector);
    }
}

/// What is known of the state file and its backups.
#[derive(Debug, Clone, Copy, PartialEq, Eq, Structural)]
pub struct StateStats {
    pub state_file_exists: bool,
    pub state_file_size: u64,
    pub backup_count: usize,
    pub backup_total_size: u64,
    pub compression_enabled: bool,
    pub checksum_validation_enabled: bool,
}

impl StateStats {
    /// The state file's size for display (see `format_bytes`, which takes
    /// sizes up to `MAX_EXACT_BYTES`).
    pub fn state_file_size_formatted(&self) -> (r: String)
        requires
            self.state_file_size <= MAX_EXACT_BYTES,
        ensures
            r@ == bytes_text(self.state_file_size as nat),
    {
        format_bytes(self.state_file_size)
    }

    /// The backups' total size for display (see `format_bytes`, which takes
    /// sizes up to `MAX_EXACT_BYTES`).
    pub fn backup_total_size_formatted(&self) -> (r: String)
        requires
            self.backup_total_size <= MAX_EXACT_BYTES,
        ensures
            r@ == bytes_text(self.backup_total_size as nat),
    {
        format_bytes(self.backup_total_size)
    }
}

/// The largest size shown exactly: up to 2^53 bytes a size and its
/// quotients by powers of 1024 are exact binary fractions.
pub const MAX_EXACT_BYTES: u64 = 9007199254740992;

pub open spec fn pow1024(k: nat) -> nat
    decreases k,
{
    if k == 0 {
        1
    } else {
        1024 * pow1024((k - 1) as nat)
    }
}

/// The unit a size is shown in: the largest of B, KB, MB and GB that it
/// reaches.
pub open spec fn size_unit(bytes: nat) -> nat {
    if bytes >= pow1024(3) {
        3
    } else if bytes >= pow1024(2) {
        2
    } else if bytes >= pow1024(1) {
        1
    } else {
        0
    }
}

pub open spec fn unit_name(k: nat) -> Seq<char> {
    if k == 0 {
        "B"@
    } else if k == 1 {
        "KB"@
    } else if k == 2 {
        "MB"@
    } else {
        "GB"@
    }
}

/// `n / d` rounded to the nearest integer, a tie going to the even one.
pub open spec fn round_half_even(n: nat, d: nat) -> nat
    recommends
        d > 0,
{
    let q = n / d;
    let r = n % d;
    if 2 * r > d || (2 * r == d && q % 2 == 1) {
        q + 1
    } else {
        q
    }
}

/// How a size is shown: in its unit, with two decimals (`{:.2}`, which
/// rounds a tie to even), then the unit.
pub open spec fn bytes_text(bytes: nat) -> Seq<char> {
    let k = size_unit(bytes);
    let h = round_half_even(bytes * 100, pow1024(k));
    decimal(h / 100) + seq!['.', digit_char((h % 100) / 10), digit_char(h % 10), ' '] + unit_name(k)
}

/// The unit of a size and the size in hundredths of that unit, rounded.
fn scaled_size(bytes: u64) -> (r: (u64, u64))
    requires
        bytes <= MAX_EXACT_BYTES,
    ensures
        r.0 == size_unit(bytes as nat),
        r.1 == round_half_even((bytes * 100) as nat, pow1024(r.0 as nat)),
{
    proof {
        reveal_with_fuel(pow1024, 4);
    }
    let (k, d): (u64, u128) = if bytes >= 1073741824 {
        (3, 1073741824)
    } else if bytes >= 1048576 {
        (2, 1048576)
    } else if bytes >= 1024 {
        (1, 1024)
    } else {
        (0, 1)
    };
    let n: u128 = bytes as u128 * 100;
    let q = n / d;
    let rem = n % d;
    assert(q <= n) by (nonlinear_arith)
        requires
            q == n / d,
            d >= 1,
    ;
    let h: u128 = if 2 * rem > d || (2 * rem == d && q % 2 == 1) {
        q + 1
    } else {
        q
    };
    (k, h as u64)
}

/// Shows a size in B, KB, MB or GB with two decimals, rounded half to even
/// as the floating-point formatting does. Sizes are accepted up to
/// `MAX_EXACT_BYTES` (2^53 bytes, 8 PiB): below that bound the size and its
/// quotients by powers of 1024 are exact in a double, so the text can be
/// computed exactly in integers; larger sizes are the caller's to refuse.
pub fn format_bytes(bytes: u64) -> (r: String)
    requires
        bytes <= MAX_EXACT_BYTES,
    ensures
        r@ == bytes_text(bytes as nat),
{
    let (k, h) = scaled_size(bytes);
    let whole = h / 100;
    let frac = h % 100;
    let mut out: Vec<char> = Vec::new();
    push_decimal(&mut out, whole);
    out.push('.');
    let tens = (frac / 10) as u32;
    let ones = (frac % 10) as u32;
    out.push(digit(tens));
    out.push(digit(ones));
    out.push(' ');
    let unit = if k == 0 {
        "B"
    } else if k == 1 {
        "KB"
    } else if k == 2 {
        "MB"
    } else {
        "GB"
    };
    let uc = crate::text::chars_of(unit);
    let ghost start = out@;
    let mut i: usize = 0;
    while i < uc.len()
        invariant
            i <= uc@.len(),
            out@ == start + uc@.take(i as int),
        decreases uc.len() - i,
    {
        out.push(uc[i]);
        assert(uc@.take(i + 1) =~= uc@.take(i as int).push(uc@[i as int]));
        i += 1;
    }
    assert(uc@.take(uc@.len() as int) =~= uc@);
    assert(frac % 10 == h % 10);
    assert(out@ =~= bytes_text(bytes as nat));
    string_of(&out)
}

/// The character of a decimal digit.
fn digit(d: u32) -> (c: char)
    requires
        d < 10,
    ensures
        c == digit_char(d as nat),
{
    if d == 0 {
        '0'
    } else if d == 1 {
        '1'
    } else if d == 2 {
        '2'
    } else if d == 3 {
        '3'
    } else if d == 4 {
        '4'
    } else if d == 5 {
        '5'
    } else if d == 6 {
        '6'
    } else if d == 7 {
        '7'
    } else if d == 8 {
        '8'
    } else {
        '9'
    }
}

/// The number of backup-directory entries with a `bak` extension.
pub open spec fn bak_count(entries: Seq<(String, Option<u64>)>) -> nat
    decreases entries.len(),
{
    if entries.len() == 0 {
        0
    } else {
        bak_count(entries.drop_last()) + if is_bak_name(entries.last().0@) {
            1nat
        } else {
            0nat
        }
    }
}

/// The sum of the sizes that could be read of those entries.
pub open spec fn bak_size(entries: Seq<(String, Option<u64>)>) -> nat
    decreases entries.len(),
{
    if entries.len() == 0 {
        0
    } else {
        bak_size(entries.drop_last()) + if is_bak_name(entries.last().0@) {
            match entries.last().1 {
                Some(n) => n as nat,
                None => 0nat,
            }
        } else {
            0nat
        }
    }
}

impl MessagePackManager {
    /// What is known of the state file and its backups: whether the state
    /// file exists (`state_size` is `None` when it does not) and its size
    /// (0 when it could not be read); the entries of the backup directory
    /// (name, size if it could be read) with a `bak` extension, counted,
    /// and the sum of their sizes; the options' compression and checksums.
    pub fn get_state_stats(&self, state_size: Option<Option<u64>>, backup_entries: &Vec<(String, Option<u64>)>) -> (r: StateStats)
        requires
            bak_size(backup_entries@) <= u64::MAX,
        ensures
            r.state_file_exists == (state_size is Some),
            r.state_file_size == (match state_size {
                Some(Some(n)) => n,
                _ => 0,
            }),
            r.backup_count == bak_count(backup_entries@),
            r.backup_total_size == bak_size(backup_entries@),
            r.compression_enabled == self.options.compression,
            r.checksum_validation_enabled == self.options.checksum_validation,
    {
        let mut count: usize = 0;
        let mut size: u64 = 0;
        let mut i: usize = 0;
        while i < backup_entries.len()
            invariant
                i <= backup_entries@.len(),
                count == bak_count(backup_entries@.take(i as int)),
                size == bak_size(backup_entries@.take(i as int)),
                bak_size(backup_entries@) <= u64::MAX,
            decreases backup_entries.len() - i,
        {
            proof {
                let t = backup_entries@.take(i + 1);
                assert(t.drop_last() =~= backup_entries@.take(i as int));
                assert(t.last() == backup_entries@[i as int]);
                lemma_bak_prefix(backup_entries@, i + 1);
                lemma_bak_count_bound(backup_entries@.take(i + 1));
            }
            if has_bak_extension(backup_entries[i].0.as_str()) {
                count = count + 1;
                if let Some(n) = backup_entries[i].1 {
                    size = size + n;
                }
            }
            i += 1;
        }
        assert(backup_entries@.take(backup_entries@.len() as int) =~= backup_entries@);
        StateStats {
            state_file_exists: state_size.is_some(),
            state_file_size: match state_size {
                Some(Some(n)) => n,
                _ => 0,
            },
            backup_count: count,
            backup_total_size: size,
            compression_enabled: self.options.compression,
            checksum_validation_enabled: self.options.checksum_validation,
        }
    }
}

/// The sizes of a prefix of the entries add up to no more than all of
/// them.
proof fn lemma_bak_prefix(entries: Seq<(String, Option<u64>)>, k: int)
    requires
        0 <= k <= entries.len(),
    ensures
        bak_size(entries.take(k)) <= bak_size(entries),
    decreases entries.len() - k,
{
    if k < entries.len() {
        lemma_bak_prefix(entries, k + 1);
        assert(entries.take(k + 1).drop_last() =~= entries.take(k));
    } else {
        assert(entries.take(k) =~= entries);
    }
}

/// No more entries are counted than there are.
proof fn lemma_bak_count_bound(entries: Seq<(String, Option<u64>)>)
    ensures
        bak_count(entries) <= entries.len(),
    decreases entries.len(),
{
    if entries.len() > 0 {
        lemma_bak_count_bound(entries.drop_last());
    }
}

} // verus!
