//! The master key of the database and the encryption of stored secrets.
//!
//! The key file holds a version line `v1` and the key in standard Base64.
//! A key comes from the file, from a password (Argon2), or from the
//! device's identifier (SHA-256 with a fixed salt). Secrets are sealed with
//! ChaCha20-Poly1305 and stored as the 12-byte nonce followed by the sealed
//! bytes.
use vstd::prelude::*;
use vstd::utf8::{decode_utf8, encode_utf8, valid_utf8};
use crate::storage::codec::{
    base64_char, base64_decode, base64_decoding, base64_encode, base64_encoding, sha256,
    sha256_digest,
};
use crate::storage::error::DatabaseError;
use crate::text::{
    chars_of, contains_chars, contains_seq, lemma_split_on_extend, lemma_split_on_sep,
    lemma_split_on_single, owned, push_str, split_chars, split_on, std_lines, std_lines_of,
    str_eq, string_of, strip_cr, trim, trim_chars,
};

verus! {

broadcast use vstd::utf8::encode_utf8_valid_utf8, vstd::utf8::encode_utf8_decode_utf8;

/// The name of the key file in the configuration directory.
pub const KEY_FILE_NAME: &'static str = "master.key";

/// The version line of the key file.
pub const KEY_FILE_VERSION: &'static str = "v1";

/// Bytes of nonce before each sealed secret.
pub const NONCE_LEN: usize = 12;

/// What is hashed after the device identifier to make the device key.
pub const DEVICE_KEY_SALT: &'static str = "orbitx-secret-v1";

// ---------------------------------------------------------------------------
// Outside primitives
// ---------------------------------------------------------------------------

/// The bytes ChaCha20-Poly1305 seals `plaintext` to under `key` and `nonce`
/// (no associated data).
pub uninterp spec fn aead_sealed(key: Seq<u8>, nonce: Seq<u8>, plaintext: Seq<u8>) -> Seq<u8>;

/// The plaintext ChaCha20-Poly1305 opens `sealed` to under `key` and
/// `nonce`, or `None` when the tag does not match.
pub uninterp spec fn aead_opened(key: Seq<u8>, nonce: Seq<u8>, sealed: Seq<u8>) -> Option<Seq<u8>>;

/// `chacha20poly1305::ChaCha20Poly1305::encrypt` under a 32-byte key and a
/// 12-byte nonce: the sealed bytes are a function of the three inputs, and
/// opening them with the same key and nonce gives the plaintext back (what
/// an AEAD promises); they are the plaintext's length plus the 16-byte tag.
/// The library's error is reported as its message.
#[verifier::external_body]
fn chacha_encrypt(key: &[u8], nonce: &[u8], plaintext: &[u8]) -> (r: Result<Vec<u8>, String>)
    requires
        key@.len() == 32,
        nonce@.len() == NONCE_LEN,
    ensures
        r matches Ok(c) ==> c@ == aead_sealed(key@, nonce@, plaintext@) && aead_opened(
            key@,
            nonce@,
            c@,
        ) == Some(plaintext@) && c@.len() == plaintext@.len() + 16,
{
    let cipher = <chacha20poly1305::ChaCha20Poly1305 as chacha20poly1305::KeyInit>::new(
        chacha20poly1305::Key::from_slice(key),
    );
    match chacha20poly1305::aead::Aead::encrypt(
        &cipher,
        chacha20poly1305::Nonce::from_slice(nonce),
        plaintext,
    ) {
        Ok(c) => Ok(c),
        Err(e) => Err(e.to_string()),
    }
}

/// `chacha20poly1305::ChaCha20Poly1305::decrypt` under a 32-byte key and a
/// 12-byte nonce: the plaintext exactly when `aead_opened` has one.
#[verifier::external_body]
fn chacha_decrypt(key: &[u8], nonce: &[u8], sealed: &[u8]) -> (r: Result<Vec<u8>, String>)
    requires
        key@.len() == 32,
        nonce@.len() == NONCE_LEN,
    ensures
        r is Ok <==> aead_opened(key@, nonce@, sealed@) is Some,
        r matches Ok(p) ==> Some(p@) == aead_opened(key@, nonce@, sealed@),
{
    let cipher = <chacha20poly1305::ChaCha20Poly1305 as chacha20poly1305::KeyInit>::new(
        chacha20poly1305::Key::from_slice(key),
    );
    match chacha20poly1305::aead::Aead::decrypt(
        &cipher,
        chacha20poly1305::Nonce::from_slice(nonce),
        sealed,
    ) {
        Ok(p) => Ok(p),
        Err(e) => Err(e.to_string()),
    }
}

/// Twelve bytes from the operating system's random source
/// (`rand::rngs::OsRng`); only their number is stated.
#[verifier::external_body]
fn random_nonce() -> (r: Vec<u8>)
    ensures
        r@.len() == NONCE_LEN,
{
    let mut nonce = vec![0u8; 12];
    rand::RngCore::fill_bytes(&mut rand::rngs::OsRng, &mut nonce);
    nonce
}

/// Argon2 (the crate's default parameters) over the password with a fresh
/// random salt (`argon2::PasswordHasher::hash_password`): the hash output's
/// bytes, or the library's error message. The default parameters give an
/// output of 32 bytes (`Params::DEFAULT_OUTPUT_LEN`), and `hash_password`
/// always sets one. With those parameters and a generated salt it fails only
/// for a password longer than `argon2::MAX_PWD_LEN` (2^32 - 1) bytes. The
/// bytes depend on the random salt, so nothing more is stated of them.
#[verifier::external_body]
fn argon2_password_hash(password: &str) -> (r: Result<Option<Vec<u8>>, String>)
    ensures
        r matches Ok(h) ==> (h matches Some(b) && b@.len() == 32),
        encode_utf8(password@).len() <= 0xFFFF_FFFF ==> r is Ok,
{
    let salt = argon2::password_hash::SaltString::generate(&mut rand::rngs::OsRng);
    let hasher = argon2::Argon2::default();
    match argon2::PasswordHasher::hash_password(&hasher, password.as_bytes(), &salt) {
        Ok(h) => match h.hash {
            Some(out) => Ok(Some(out.as_bytes().to_vec())),
            None => Ok(None),
        },
        Err(e) => Err(e.to_string()),
    }
}

/// The machine's host name (`hostname::get`, read lossily as UTF-8), or the
/// error message; it depends on the machine, so nothing is stated of it.
#[verifier::external_body]
fn host_name() -> (r: Result<String, String>) {
    match hostname::get() {
        Ok(name) => Ok(name.to_string_lossy().to_string()),
        Err(e) => Err(e.to_string()),
    }
}

/// `String::from_utf8`: the text exactly when the bytes are valid UTF-8,
/// else the error's message.
#[verifier::external_body]
fn utf8_text(bytes: Vec<u8>) -> (r: Result<String, String>)
    ensures
        r is Ok <==> valid_utf8(bytes@),
        r matches Ok(s) ==> s@ == decode_utf8(bytes@),
{
    match String::from_utf8(bytes) {
        Ok(s) => Ok(s),
        Err(e) => Err(e.to_string()),
    }
}

// ---------------------------------------------------------------------------
// The key file
// ---------------------------------------------------------------------------

/// The line of a key file that holds the key: the second line after a
/// version line, else the first line (empty when there is none).
pub open spec fn key_line(raw: Seq<char>) -> Seq<char> {
    let ls = std_lines(raw);
    let first = if ls.len() > 0 {
        ls[0]
    } else {
        Seq::<char>::empty()
    };
    if first == "v1"@ {
        if ls.len() > 1 {
            ls[1]
        } else {
            Seq::<char>::empty()
        }
    } else {
        first
    }
}

/// What a key file holds.
pub enum KeyFileOutcome {
    /// no key yet
    NoKey,
    /// a 32-byte key
    Key(Seq<u8>),
    /// the key line is not Base64
    BadBase64,
    /// the key is not 32 bytes long
    BadLength,
}

pub open spec fn key_file_outcome(raw: Seq<char>) -> KeyFileOutcome {
    let line = key_line(raw);
    if line.len() == 0 {
        KeyFileOutcome::NoKey
    } else {
        match base64_decoding(line) {
            None => KeyFileOutcome::BadBase64,
            Some(b) => if b.len() == 32 {
                KeyFileOutcome::Key(b)
            } else {
                KeyFileOutcome::BadLength
            },
        }
    }
}

/// Reads the key out of a key file's text.
pub fn parse_key_file(raw: &str) -> (r: Result<Option<Vec<u8>>, DatabaseError>)
    ensures
        match key_file_outcome(raw@) {
            KeyFileOutcome::NoKey => r == Ok::<Option<Vec<u8>>, DatabaseError>(None),
            KeyFileOutcome::Key(k) => r matches Ok(Some(v)) && v@ == k,
            KeyFileOutcome::BadBase64 => r matches Err(DatabaseError::Base64(_)),
            KeyFileOutcome::BadLength => r == Err::<Option<Vec<u8>>, DatabaseError>(
                DatabaseError::InvalidKeyLength,
            ),
        },
{
    let text = chars_of(raw);
    let lines = std_lines_of(&text);
    let empty: Vec<char> = Vec::new();
    let first: &Vec<char> = if lines.len() > 0 {
        &lines[0]
    } else {
        &empty
    };
    let line: &Vec<char> = if str_eq(KEY_FILE_VERSION, first) {
        if lines.len() > 1 {
            &lines[1]
        } else {
            &empty
        }
    } else {
        first
    };
    if line.len() == 0 {
        return Ok(None);
    }
    let encoded = string_of(line);
    match base64_decode(encoded.as_str()) {
        Err(msg) => Err(DatabaseError::Base64(msg)),
        Ok(bytes) => {
            if bytes.len() != 32 {
                Err(DatabaseError::InvalidKeyLength)
            } else {
                Ok(Some(bytes))
            }
        },
    }
}

/// The text of a key file for `key`: the version line and the key in
/// Base64, each ending in a newline. Reading it back gives the key.
pub fn key_file_payload(key: &[u8]) -> (r: String)
    requires
        key@.len() == 32,
    ensures
        r@ == "v1\n"@ + base64_encoding(key@) + "\n"@,
        key_file_outcome(r@) == KeyFileOutcome::Key(key@),
{
    let encoded = base64_encode(key);
    let mut out = owned(KEY_FILE_VERSION);
    push_str(&mut out, "\n");
    push_str(&mut out, encoded.as_str());
    push_str(&mut out, "\n");
    proof {
        reveal_strlit("v1");
        reveal_strlit("\n");
        reveal_strlit("v1\n");
        let e = encoded@;
        assert(e.len() == 44);
        assert forall|i: int| 0 <= i < e.len() implies e[i] != '\n' && e[i] != '\r' by {
            assert(base64_char(e[i]));
        }
        let v = "v1"@;
        lemma_split_on_single(v, '\n');
        lemma_split_on_sep(v, '\n');
        let a = v.push('\n');
        lemma_split_on_extend(a, e, '\n');
        let b = a + e;
        lemma_split_on_sep(b, '\n');
        assert(out@ =~= b.push('\n'));
        let p = split_on(out@, '\n');
        assert(p =~= seq![v, e, Seq::<char>::empty()]);
        assert(strip_cr(v) == v);
        assert(strip_cr(e) == e);
        assert(std_lines(out@) =~= seq![v, e]);
        assert(out@ =~= "v1\n"@ + e + "\n"@);
    }
    out
}

// ---------------------------------------------------------------------------
// Keys from a password and from the device
// ---------------------------------------------------------------------------

/// The message when Argon2 gives a hash without output.
pub const EMPTY_HASH_MESSAGE: &'static str = "Key derivation produced an empty hash";

/// The key made from a password hash: its first 32 bytes.
pub fn key_from_password_hash(hash: Option<Vec<u8>>) -> (r: Result<Vec<u8>, DatabaseError>)
    ensures
        match hash {
            None => r matches Err(DatabaseError::Internal(m)) && m@ == EMPTY_HASH_MESSAGE@,
            Some(h) => if h@.len() < 32 {
                r == Err::<Vec<u8>, DatabaseError>(DatabaseError::InsufficientKeyLength)
            } else {
                r matches Ok(k) && k@ == h@.take(32)
            },
        },
{
    match hash {
        None => Err(DatabaseError::internal(owned(EMPTY_HASH_MESSAGE))),
        Some(h) => {
            if h.len() < 32 {
                return Err(DatabaseError::InsufficientKeyLength);
            }
            let mut k: Vec<u8> = Vec::new();
            let mut i: usize = 0;
            while i < 32
                invariant
                    i <= 32,
                    h@.len() >= 32,
                    k@ == h@.take(i as int),
                decreases 32 - i,
            {
                k.push(h[i]);
                assert(h@.take(i + 1) =~= h@.take(i as int).push(h@[i as int]));
                i += 1;
            }
            Ok(k)
        },
    }
}

/// A key from a password: Argon2 with a fresh salt, cut to 32 bytes. It
/// fails only for a password of more than 2^32 - 1 bytes.
pub fn derive_key_from_password(password: &str) -> (r: Result<Vec<u8>, DatabaseError>)
    ensures
        encode_utf8(password@).len() <= 0xFFFF_FFFF ==> r is Ok,
        r matches Ok(k) ==> k@.len() == 32,
        r matches Err(e) ==> e is KeyDerivation,
{
    match argon2_password_hash(password) {
        Err(msg) => Err(DatabaseError::KeyDerivation(msg)),
        Ok(hash) => key_from_password_hash(hash),
    }
}

/// The device key of a device identifier: SHA-256 of the identifier's
/// UTF-8 bytes followed by those of `DEVICE_KEY_SALT`.
pub fn device_key(device_id: &str) -> (r: Vec<u8>)
    ensures
        r@ == sha256_digest(encode_utf8(device_id@) + encode_utf8(DEVICE_KEY_SALT@)),
        r@.len() == 32,
{
    let a = device_id.as_bytes();
    let b = DEVICE_KEY_SALT.as_bytes();
    let mut buf: Vec<u8> = Vec::new();
    let mut i: usize = 0;
    while i < a.len()
        invariant
            i <= a@.len(),
            buf@ == a@.take(i as int),
        decreases a.len() - i,
    {
        buf.push(a[i]);
        assert(a@.take(i + 1) =~= a@.take(i as int).push(a@[i as int]));
        i += 1;
    }
    let mut j: usize = 0;
    while j < b.len()
        invariant
            j <= b@.len(),
            buf@ == a@ + b@.take(j as int),
        decreases b.len() - j,
    {
        buf.push(b[j]);
        assert(b@.take(j + 1) =~= b@.take(j as int).push(b@[j as int]));
        j += 1;
    }
    assert(a@.take(a@.len() as int) =~= a@);
    assert(b@.take(b@.len() as int) =~= b@);
    sha256(buf.as_slice())
}

// ---------------------------------------------------------------------------
// Device identifiers
// ---------------------------------------------------------------------------

/// The first line of `ioreg` output that names `IOPlatformUUID` and has a
/// fourth `"`-separated piece: that piece, from line `i` on.
pub open spec fn ioreg_uuid_from(ls: Seq<Seq<char>>, i: int) -> Option<Seq<char>>
    decreases ls.len() - i,
{
    if i < 0 || i >= ls.len() {
        None
    } else if contains_seq(ls[i], "IOPlatformUUID"@) && split_on(ls[i], '"').len() > 3 {
        Some(split_on(ls[i], '"')[3])
    } else {
        ioreg_uuid_from(ls, i + 1)
    }
}

/// The platform UUID in `ioreg -rd1 -c IOPlatformExpertDevice` output.
pub open spec fn ioreg_uuid(output: Seq<char>) -> Option<Seq<char>> {
    ioreg_uuid_from(std_lines(output), 0)
}

/// Finds the platform UUID in `ioreg` output.
pub fn parse_ioreg_uuid(output: &str) -> (r: Option<String>)
    ensures
        match r {
            Some(u) => ioreg_uuid(output@) == Some(u@),
            None => ioreg_uuid(output@) is None,
        },
{
    let text = chars_of(output);
    let lines = std_lines_of(&text);
    let key = chars_of("IOPlatformUUID");
    let ghost ls = std_lines(output@);
    let mut i: usize = 0;
    while i < lines.len()
        invariant
            i <= lines@.len(),
            lines@.len() == ls.len(),
            forall|k: int| 0 <= k < ls.len() ==> #[trigger] lines@[k]@ == ls[k],
            key@ == "IOPlatformUUID"@,
            ls == std_lines(output@),
            ioreg_uuid_from(ls, 0) == ioreg_uuid_from(ls, i as int),
        decreases lines.len() - i,
    {
        proof {
            assert(lines@[i as int]@ == ls[i as int]);
        }
        if contains_chars(&lines[i], &key) {
            let pieces = split_chars(&lines[i], '"');
            if pieces.len() > 3 {
                proof {
                    assert(pieces@[3]@ == split_on(ls[i as int], '"')[3]);
                }
                return Some(string_of(&pieces[3]));
            }
        }
        i += 1;
    }
    None
}

/// The first line after the header of `wmic csproduct get UUID` output
/// that is neither blank nor `UUID`, trimmed, from line `i` on.
pub open spec fn wmic_uuid_from(ls: Seq<Seq<char>>, i: int) -> Option<Seq<char>>
    decreases ls.len() - i,
{
    if i < 1 || i >= ls.len() {
        None
    } else if trim(ls[i]).len() > 0 && trim(ls[i]) != "UUID"@ {
        Some(trim(ls[i]))
    } else {
        wmic_uuid_from(ls, i + 1)
    }
}

/// The product UUID in `wmic` output.
pub open spec fn wmic_uuid(output: Seq<char>) -> Option<Seq<char>> {
    wmic_uuid_from(std_lines(output), 1)
}

/// Finds the product UUID in `wmic` output.
pub fn parse_wmic_uuid(output: &str) -> (r: Option<String>)
    ensures
        match r {
            Some(u) => wmic_uuid(output@) == Some(u@),
            None => wmic_uuid(output@) is None,
        },
{
    let text = chars_of(output);
    let lines = std_lines_of(&text);
    let header = chars_of("UUID");
    let ghost ls = std_lines(output@);
    let mut i: usize = 1;
    while i < lines.len()
        invariant
            1 <= i,
            lines@.len() == ls.len(),
            forall|k: int| 0 <= k < ls.len() ==> #[trigger] lines@[k]@ == ls[k],
            header@ == "UUID"@,
            ls == std_lines(output@),
            wmic_uuid_from(ls, 1) == wmic_uuid_from(ls, i as int),
        decreases lines.len() - i,
    {
        proof {
            assert(lines@[i as int]@ == ls[i as int]);
        }
        let t = trim_chars(&lines[i]);
        if t.len() > 0 && !crate::text::chars_eq(&t, &header) {
            return Some(string_of(&t));
        }
        i += 1;
    }
    None
}

/// What was found out about the device, by platform.
#[derive(Debug)]
pub enum DeviceProbe {
    /// macOS: `ioreg` could not be run (its error), or ran (whether it
    /// succeeded, and its output)
    Ioreg(Result<(bool, String), String>),
    /// Windows: the same for `wmic`
    Wmic(Result<(bool, String), String>),
    /// Linux: the contents of `/etc/machine-id` and of
    /// `/var/lib/dbus/machine-id`, where they could be read
    MachineId(Option<String>, Option<String>),
    /// another system
    Unsupported,
}

/// The identifier when the platform's own source gives one: `None` where
/// the host name is used instead, or an error message.
pub open spec fn probe_identifier(probe: DeviceProbe) -> Result<Option<Seq<char>>, Seq<char>> {
    match probe {
        DeviceProbe::Ioreg(Err(e)) => Err("获取设备UUID失败: "@ + e@),
        DeviceProbe::Ioreg(Ok((false, _))) => Err("ioreg命令执行失败"@),
        DeviceProbe::Ioreg(Ok((true, out))) => Ok(ioreg_uuid(out@)),
        DeviceProbe::Wmic(Err(e)) => Err("获取设备UUID失败: "@ + e@),
        DeviceProbe::Wmic(Ok((false, _))) => Err("wmic命令执行失败"@),
        DeviceProbe::Wmic(Ok((true, out))) => Ok(wmic_uuid(out@)),
        DeviceProbe::MachineId(Some(c), _) => Ok(Some(trim(c@))),
        DeviceProbe::MachineId(None, Some(c)) => Ok(Some(trim(c@))),
        DeviceProbe::MachineId(None, None) => Ok(None),
        DeviceProbe::Unsupported => Err("不支持的操作系统，无法获取设备标识"@),
    }
}

fn message_with(head: &str, detail: &str) -> (r: String)
    ensures
        r@ == head@ + detail@,
{
    let mut m = owned(head);
    push_str(&mut m, detail);
    m
}

/// The device's identifier: the platform's UUID or machine id, else its
/// host name.
pub fn device_identifier(probe: DeviceProbe) -> (r: Result<String, DatabaseError>)
    ensures
        match probe_identifier(probe) {
            Err(m) => r matches Err(DatabaseError::Internal(t)) && t@ == m,
            Ok(Some(id)) => r matches Ok(s) && s@ == id,
            Ok(None) => r matches Err(DatabaseError::Internal(t)) ==> exists|e: Seq<char>|
                t@ == "获取主机名失败: "@ + e,
        },
{
    let found: Option<String> = match probe {
        DeviceProbe::Ioreg(Err(e)) => {
            return Err(DatabaseError::internal(message_with("获取设备UUID失败: ", e.as_str())));
        },
        DeviceProbe::Ioreg(Ok((ok, out))) => {
            if !ok {
                return Err(DatabaseError::internal(owned("ioreg命令执行失败")));
            }
            parse_ioreg_uuid(out.as_str())
        },
        DeviceProbe::Wmic(Err(e)) => {
            return Err(DatabaseError::internal(message_with("获取设备UUID失败: ", e.as_str())));
        },
        DeviceProbe::Wmic(Ok((ok, out))) => {
            if !ok {
                return Err(DatabaseError::internal(owned("wmic命令执行失败")));
            }
            parse_wmic_uuid(out.as_str())
        },
        DeviceProbe::MachineId(first, second) => {
            let content = match first {
                Some(c) => Some(c),
                None => second,
            };
            match content {
                Some(c) => {
                    let t = trim_chars(&chars_of(c.as_str()));
                    Some(string_of(&t))
                },
                None => None,
            }
        },
        DeviceProbe::Unsupported => {
            return Err(
                DatabaseError::internal(owned("不支持的操作系统，无法获取设备标识")),
            );
        },
    };
    match found {
        Some(id) => Ok(id),
        None => match host_name() {
            Ok(name) => Ok(name),
            Err(e) => Err(DatabaseError::internal(message_with("获取主机名失败: ", e.as_str()))),
        },
    }
}

// ---------------------------------------------------------------------------
// Sealing secrets
// ---------------------------------------------------------------------------

/// The text a stored secret opens to under `key`: its nonce, then the
/// sealed UTF-8 bytes of the text; `None` when it cannot be opened.
pub open spec fn opened_text(key: Seq<u8>, stored: Seq<u8>) -> Option<Seq<char>> {
    if stored.len() <= NONCE_LEN {
        None
    } else {
        match aead_opened(key, stored.take(NONCE_LEN as int), stored.skip(NONCE_LEN as int)) {
            Some(p) => if valid_utf8(p) {
                Some(decode_utf8(p))
            } else {
                None
            },
            None => None,
        }
    }
}

/// Seals `data` under `key` with the given nonce: the nonce followed by
/// the sealed bytes; refused when encryption is off.
pub fn encrypt_with_nonce(encryption: bool, key: &[u8], nonce: &[u8], data: &str) -> (r: Result<
    Vec<u8>,
    DatabaseError,
>)
    requires
        key@.len() == 32,
        nonce@.len() == NONCE_LEN,
    ensures
        !encryption ==> r == Err::<Vec<u8>, DatabaseError>(DatabaseError::EncryptionNotEnabled),
        encryption ==> match r {
            Ok(stored) => stored@ == nonce@ + aead_sealed(key@, nonce@, encode_utf8(data@))
                && opened_text(key@, stored@) == Some(data@) && stored@.len() == NONCE_LEN
                + encode_utf8(data@).len() + 16,
            Err(e) => e is Encryption,
        },
{
    if !encryption {
        return Err(DatabaseError::EncryptionNotEnabled);
    }
    match chacha_encrypt(key, nonce, data.as_bytes()) {
        Err(msg) => Err(DatabaseError::Encryption(msg)),
        Ok(sealed) => {
            let mut out: Vec<u8> = Vec::new();
            let mut i: usize = 0;
            while i < nonce.len()
                invariant
                    i <= nonce@.len(),
                    out@ == nonce@.take(i as int),
                decreases nonce.len() - i,
            {
                out.push(nonce[i]);
                assert(nonce@.take(i + 1) =~= nonce@.take(i as int).push(nonce@[i as int]));
                i += 1;
            }
            let mut j: usize = 0;
            while j < sealed.len()
                invariant
                    j <= sealed@.len(),
                    out@ == nonce@ + sealed@.take(j as int),
                    nonce@.len() == NONCE_LEN,
                decreases sealed.len() - j,
            {
                out.push(sealed[j]);
                assert(sealed@.take(j + 1) =~= sealed@.take(j as int).push(sealed@[j as int]));
                j += 1;
            }
            proof {
                assert(nonce@.take(NONCE_LEN as int) =~= nonce@);
                assert(sealed@.take(sealed@.len() as int) =~= sealed@);
                let p = encode_utf8(data@);
                assert(out@.take(NONCE_LEN as int) =~= nonce@);
                assert(out@.skip(NONCE_LEN as int) =~= sealed@);
            }
            Ok(out)
        },
    }
}

/// Seals `data` under `key` with a fresh random nonce; refused when
/// encryption is off. What is stored is the nonce, the sealed UTF-8 bytes
/// and the 16-byte tag, and it opens back to `data`.
pub fn encrypt_data(encryption: bool, key: &[u8], data: &str) -> (r: Result<Vec<u8>, DatabaseError>)
    requires
        key@.len() == 32,
    ensures
        !encryption ==> r == Err::<Vec<u8>, DatabaseError>(DatabaseError::EncryptionNotEnabled),
        encryption ==> match r {
            Ok(stored) => opened_text(key@, stored@) == Some(data@) && stored@.len() == NONCE_LEN
                + encode_utf8(data@).len() + 16,
            Err(e) => e is Encryption,
        },
{
    let nonce = random_nonce();
    encrypt_with_nonce(encryption, key, nonce.as_slice(), data)
}

/// Opens a stored secret under `key`: refused when encryption is off, when
/// it is no longer than a nonce, when it does not open, or when it is not
/// UTF-8 text.
pub fn decrypt_data(encryption: bool, key: &[u8], stored: &[u8]) -> (r: Result<String, DatabaseError>)
    requires
        key@.len() == 32,
    ensures
        !encryption ==> r == Err::<String, DatabaseError>(DatabaseError::EncryptionNotEnabled),
        encryption && stored@.len() <= NONCE_LEN ==> r == Err::<String, DatabaseError>(
            DatabaseError::InvalidEncryptedData,
        ),
        encryption ==> (r is Ok <==> opened_text(key@, stored@) is Some),
        r matches Ok(s) ==> opened_text(key@, stored@) == Some(s@),
        encryption && stored@.len() > NONCE_LEN && r is Err ==> (r matches Err(e) && (
        e is Encryption || e is Utf8)),
{
    if !encryption {
        return Err(DatabaseError::EncryptionNotEnabled);
    }
    if stored.len() <= NONCE_LEN {
        return Err(DatabaseError::InvalidEncryptedData);
    }
    let mut nonce: Vec<u8> = Vec::new();
    let mut i: usize = 0;
    while i < NONCE_LEN
        invariant
            i <= NONCE_LEN,
            stored@.len() > NONCE_LEN,
            nonce@ == stored@.take(i as int),
        decreases NONCE_LEN - i,
    {
        nonce.push(stored[i]);
        assert(stored@.take(i + 1) =~= stored@.take(i as int).push(stored@[i as int]));
        i += 1;
    }
    let mut sealed: Vec<u8> = Vec::new();
    let mut j: usize = NONCE_LEN;
    while j < stored.len()
        invariant
            NONCE_LEN <= j <= stored@.len(),
            sealed@ == stored@.subrange(NONCE_LEN as int, j as int),
        decreases stored.len() - j,
    {
        sealed.push(stored[j]);
        assert(stored@.subrange(NONCE_LEN as int, j + 1) =~= stored@.subrange(
            NONCE_LEN as int,
            j as int,
        ).push(stored@[j as int]));
        j += 1;
    }
    assert(sealed@ =~= stored@.skip(NONCE_LEN as int));
    match chacha_decrypt(key, nonce.as_slice(), sealed.as_slice()) {
        Err(msg) => Err(DatabaseError::Encryption(msg)),
        Ok(plain) => match utf8_text(plain) {
            Ok(s) => Ok(s),
            Err(msg) => Err(DatabaseError::Utf8(msg)),
        },
    }
}

} // verus!
