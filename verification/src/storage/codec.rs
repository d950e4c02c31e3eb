//! Digests, compression and Base64, as the storage layer calls them.
use vstd::prelude::*;

verus! {

/// The SHA-256 digest of a byte sequence.
pub uninterp spec fn sha256_digest(data: Seq<u8>) -> Seq<u8>;

/// `sha2::Sha256` over `data`: the 32-byte digest, a function of `data`
/// alone; the hash function itself is not spelled out.
#[verifier::external_body]
pub fn sha256(data: &[u8]) -> (r: Vec<u8>)
    ensures
        r@ == sha256_digest(data@),
        r@.len() == 32,
{
    <sha2::Sha256 as sha2::Digest>::digest(data).to_vec()
}

/// The lower-case hexadecimal text of the MD5 digest of a text.
pub uninterp spec fn md5_hex(data: Seq<char>) -> Seq<char>;

/// `md5::compute` over the UTF-8 bytes of `data`, printed with `{:x}`: the
/// 32 hexadecimal digits of the digest, a function of `data` alone.
#[verifier::external_body]
pub fn md5_hex_digest(data: &str) -> (r: String)
    ensures
        r@ == md5_hex(data@),
{
    format!("{:x}", md5::compute(data.as_bytes()))
}

/// The gzip stream that `flate2` writes for `data` at the default level.
pub uninterp spec fn gzip_compress(data: Seq<u8>) -> Seq<u8>;

/// The bytes a gzip stream decodes to, or `None` for a stream `flate2`
/// refuses.
pub uninterp spec fn gzip_decompress(data: Seq<u8>) -> Option<Seq<u8>>;

/// `flate2::write::GzEncoder` at `Compression::default()`, writing into a
/// `Vec`: the stream is a function of `data`, and decoding it gives `data`
/// back (gzip is lossless).  An I/O failure reports its message.
#[verifier::external_body]
pub fn gzip(data: &[u8]) -> (r: Result<Vec<u8>, String>)
    ensures
        r matches Ok(v) ==> v@ == gzip_compress(data@) && gzip_decompress(v@) == Some(data@),
{
    let mut encoder = flate2::write::GzEncoder::new(Vec::new(), flate2::Compression::default());
    match std::io::Write::write_all(&mut encoder, data) {
        Ok(()) => {},
        Err(e) => return Err(e.to_string()),
    }
    match encoder.finish() {
        Ok(v) => Ok(v),
        Err(e) => Err(e.to_string()),
    }
}

/// `flate2::read::GzDecoder` read to the end: the decoded bytes exactly when
/// `gzip_decompress` has them, and the decoder's message otherwise.
#[verifier::external_body]
pub fn gunzip(data: &[u8]) -> (r: Result<Vec<u8>, String>)
    ensures
        r is Ok <==> gzip_decompress(data@) is Some,
        r matches Ok(v) ==> Some(v@) == gzip_decompress(data@),
{
    let mut decoder = flate2::read::GzDecoder::new(data);
    let mut buf = Vec::new();
    match std::io::Read::read_to_end(&mut decoder, &mut buf) {
        Ok(_) => Ok(buf),
        Err(e) => Err(e.to_string()),
    }
}

/// Standard Base64 (with padding) of a byte sequence.
pub uninterp spec fn base64_encoding(data: Seq<u8>) -> Seq<char>;

/// The bytes a standard Base64 text decodes to, or `None` where the
/// `base64` engine refuses the text.
pub uninterp spec fn base64_decoding(text: Seq<char>) -> Option<Seq<u8>>;

/// The characters of the standard Base64 alphabet, with the padding `=`.
pub open spec fn base64_char(c: char) -> bool {
    ('A' <= c && c <= 'Z') || ('a' <= c && c <= 'z') || ('0' <= c && c <= '9') || c == '+' || c
        == '/' || c == '='
}

/// `base64::engine::general_purpose::STANDARD.encode`: a function of the
/// bytes, which decoding gives back; the text is in the standard alphabet,
/// four characters for every three bytes begun (padding included).
#[verifier::external_body]
pub fn base64_encode(data: &[u8]) -> (r: String)
    ensures
        r@ == base64_encoding(data@),
        base64_decoding(r@) == Some(data@),
        r@.len() == 4 * ((data@.len() + 2) / 3),
        forall|i: int| 0 <= i < r@.len() ==> base64_char(#[trigger] r@[i]),
{
    base64::Engine::encode(&base64::engine::general_purpose::STANDARD, data)
}

/// `base64::engine::general_purpose::STANDARD.decode`: the bytes when the
/// engine accepts the text, its message otherwise.
#[verifier::external_body]
pub fn base64_decode(text: &str) -> (r: Result<Vec<u8>, String>)
    ensures
        r is Ok <==> base64_decoding(text@) is Some,
        r matches Ok(v) ==> Some(v@) == base64_decoding(text@),
{
    match base64::Engine::decode(&base64::engine::general_purpose::STANDARD, text) {
        Ok(v) => Ok(v),
        Err(e) => Err(e.to_string()),
    }
}

} // verus!
