use aes_gcm::aead::rand_core::RngCore;
use aes_gcm::aead::{Aead, KeyInit, OsRng};
use aes_gcm::{Aes256Gcm, Nonce};
use base64::engine::general_purpose::STANDARD;
use base64::Engine;
use vstd::prelude::*;
use vstd::utf8::{decode_utf8, encode_utf8, encode_utf8_decode_utf8, encode_utf8_valid_utf8, valid_utf8};

verus! {

/// Why an operation of the encryption engine failed.
#[derive(Debug, Clone, Copy, PartialEq, Eq, Structural)]
pub enum CryptoError {
    /// No device identity could be derived from the host's description.
    DeviceDerivationFailed,
    /// The record could not be sealed.
    EncryptionFailed,
    /// The ciphertext or nonce is malformed, or was not sealed under this key.
    DecryptionFailed,
    /// The decrypted bytes are not a value of the expected kind.
    DeserializationFailed,
    /// The stored data key could not be recovered on this device.
    KeyUnwrapFailed,
}

/// Length of a cipher key in bytes.
pub const KEY_LEN: usize = 32;

/// Length of a nonce in bytes: 96 bits.
pub const NONCE_LEN: usize = 12;

/// Length of the authentication tag that sealing appends.
pub const TAG_LEN: usize = 16;

/// The longest plaintext, in bytes, that the cipher seals.
pub const SEAL_LIMIT: u64 = 0x10_0000_0000;

/// The BLAKE3 digest of `data`.
pub uninterp spec fn spec_blake3(data: Seq<u8>) -> Seq<u8>;

/// The AES-256-GCM ciphertext of `plaintext` under `key` and `nonce`, with
/// the authentication tag at its end and no associated data.
pub uninterp spec fn spec_aead_seal(key: Seq<u8>, nonce: Seq<u8>, plaintext: Seq<u8>) -> Seq<u8>;

/// What AES-256-GCM recovers from `ciphertext` under `key` and `nonce`, or
/// `None` where the tag does not authenticate it.
pub uninterp spec fn spec_aead_open(key: Seq<u8>, nonce: Seq<u8>, ciphertext: Seq<u8>) -> Option<
    Seq<u8>,
>;

/// The standard, padded base64 text of `data`.
pub uninterp spec fn spec_base64(data: Seq<u8>) -> Seq<char>;

/// The bytes that the standard base64 text `text` stands for, or `None`
/// where it is not such a text.
pub uninterp spec fn spec_base64_decode(text: Seq<char>) -> Option<Seq<u8>>;

/// `blake3::hash`, with the digest copied out of the `Hash` it returns. The
/// digest is a function of the input alone and is 32 bytes long.
#[verifier::external_body]
fn digest(data: &[u8]) -> (out: Vec<u8>)
    ensures
        out@ == spec_blake3(data@),
        out@.len() == KEY_LEN,
{
    blake3::hash(data).as_bytes().to_vec()
}

/// `Aes256Gcm::encrypt` under a key made by `Aes256Gcm::new_from_slice`.
/// Sealing fails exactly on a plaintext longer than the cipher's limit of
/// 2^36 bytes; the ciphertext is the plaintext's length plus the tag, is a
/// function of key, nonce and plaintext, and opens to the plaintext again
/// under the same key and nonce.
#[verifier::external_body]
fn aead_seal(key: &Vec<u8>, nonce: &Vec<u8>, plaintext: &Vec<u8>) -> (sealed: Option<Vec<u8>>)
    requires
        key@.len() == KEY_LEN,
        nonce@.len() == NONCE_LEN,
    ensures
        sealed is Some <==> plaintext@.len() <= SEAL_LIMIT,
        sealed matches Some(ct) ==> {
            &&& ct@ == spec_aead_seal(key@, nonce@, plaintext@)
            &&& ct@.len() == plaintext@.len() + TAG_LEN
            &&& spec_aead_open(key@, nonce@, ct@) == Some(plaintext@)
        },
{
    match Aes256Gcm::new_from_slice(key) {
        Ok(cipher) => cipher.encrypt(Nonce::from_slice(nonce), plaintext.as_slice()).ok(),
        Err(_) => None,
    }
}

/// `Aes256Gcm::decrypt` under a key made by `Aes256Gcm::new_from_slice`:
/// the plaintext where the tag authenticates the ciphertext, else nothing.
#[verifier::external_body]
fn aead_open(key: &Vec<u8>, nonce: &Vec<u8>, ciphertext: &Vec<u8>) -> (opened: Option<Vec<u8>>)
    requires
        key@.len() == KEY_LEN,
        nonce@.len() == NONCE_LEN,
    ensures
        match opened {
            Some(plaintext) => spec_aead_open(key@, nonce@, ciphertext@) == Some(plaintext@),
            None => spec_aead_open(key@, nonce@, ciphertext@) is None,
        },
{
    match Aes256Gcm::new_from_slice(key) {
        Ok(cipher) => cipher.decrypt(Nonce::from_slice(nonce), ciphertext.as_slice()).ok(),
        Err(_) => None,
    }
}

/// `OsRng::try_fill_bytes` on a buffer of twelve bytes: the operating
/// system's random bytes, or nothing where it cannot supply them. Two calls
/// need not agree.
#[verifier::external_body]
fn fresh_nonce() -> (nonce: Option<Vec<u8>>)
    ensures
        nonce matches Some(n) ==> n@.len() == NONCE_LEN,
{
    let mut buffer = vec![0u8; 12];
    match OsRng.try_fill_bytes(&mut buffer) {
        Ok(()) => Some(buffer),
        Err(_) => None,
    }
}

/// `Engine::encode` of base64's `STANDARD` engine. The text is a function of
/// the bytes and decodes to them again. The engine panics where the text's
/// length would not fit in `usize`, which `requires` leaves out.
#[verifier::external_body]
fn base64_encode(data: &Vec<u8>) -> (text: String)
    requires
        (data@.len() / 3 + 1) * 4 <= usize::MAX,
    ensures
        text@ == spec_base64(data@),
        spec_base64_decode(text@) == Some(data@),
{
    STANDARD.encode(data)
}

/// `Engine::decode` of base64's `STANDARD` engine: the bytes, or nothing
/// where the text is not standard base64.
#[verifier::external_body]
fn base64_decode(text: &str) -> (data: Option<Vec<u8>>)
    ensures
        match data {
            Some(bytes) => spec_base64_decode(text@) == Some(bytes@),
            None => spec_base64_decode(text@) is None,
        },
{
    STANDARD.decode(text).ok()
}

/// `String::from_utf8`: the text that the bytes encode, or nothing where
/// they are not valid UTF-8.
#[verifier::external_body]
fn text_from_utf8(bytes: Vec<u8>) -> (text: Option<String>)
    ensures
        match text {
            Some(s) => valid_utf8(bytes@) && s@ == decode_utf8(bytes@),
            None => !valid_utf8(bytes@),
        },
{
    String::from_utf8(bytes).ok()
}

/// The cipher key that a secret text stands for: the BLAKE3 digest of its
/// UTF-8 bytes.
pub open spec fn cipher_key(secret: Seq<char>) -> Seq<u8> {
    spec_blake3(encode_utf8(secret))
}

/// Whether data of `len` bytes can be written as base64 text on this machine.
pub open spec fn encodable(len: int) -> bool {
    len / 3 < usize::MAX / 4
}

/// Whether a plaintext of `len` bytes can be sealed and sent.
pub open spec fn sealable(len: int) -> bool {
    len <= SEAL_LIMIT && encodable(len + TAG_LEN)
}

/// Ciphertext and nonce, both as base64 text, of `plaintext` sealed under
/// `secret` with `nonce`.
pub open spec fn spec_encrypt(plaintext: Seq<u8>, secret: Seq<char>, nonce: Seq<u8>) -> (
    Seq<char>,
    Seq<char>,
) {
    (spec_base64(spec_aead_seal(cipher_key(secret), nonce, plaintext)), spec_base64(nonce))
}

/// The plaintext that `ciphertext` and `nonce`, both base64 text, open to
/// under `secret`; `None` where either is not base64, the nonce is not 96
/// bits long, or the ciphertext was not sealed under this secret and nonce.
pub open spec fn spec_decrypt(ciphertext: Seq<char>, nonce: Seq<char>, secret: Seq<char>) -> Option<
    Seq<u8>,
> {
    match (spec_base64_decode(ciphertext), spec_base64_decode(nonce)) {
        (Some(sealed), Some(n)) => if n.len() == NONCE_LEN {
            spec_aead_open(cipher_key(secret), n, sealed)
        } else {
            None
        },
        _ => None,
    }
}

/// The data key that a wrapped key and its nonce unwrap to on the device
/// `device_id`; `None` where they do not decrypt or the result is not text.
pub open spec fn spec_unwrap(wrapped: Seq<char>, nonce: Seq<char>, device_id: Seq<char>) -> Option<
    Seq<char>,
> {
    match spec_decrypt(wrapped, nonce, device_id) {
        Some(bytes) => if valid_utf8(bytes) {
            Some(decode_utf8(bytes))
        } else {
            None
        },
        None => None,
    }
}

/// Seals `plaintext` under `secret` with the given nonce and returns
/// ciphertext and nonce as base64 text. Fails exactly where the nonce is not
/// 96 bits long or the plaintext is too long to seal.
pub fn encrypt_with_nonce(plaintext: &Vec<u8>, secret: &str, nonce: &Vec<u8>) -> (result: Result<
    (String, String),
    CryptoError,
>)
    ensures
        result is Ok <==> nonce@.len() == NONCE_LEN && sealable(plaintext@.len() as int),
        result matches Ok((ciphertext, nonce_text)) ==> {
            &&& (ciphertext@, nonce_text@) == spec_encrypt(plaintext@, secret@, nonce@)
            &&& spec_decrypt(ciphertext@, nonce_text@, secret@) == Some(plaintext@)
        },
        result matches Err(e) ==> e == CryptoError::EncryptionFailed,
{
    if nonce.len() != NONCE_LEN {
        return Err(CryptoError::EncryptionFailed);
    }
    let key = digest(secret.as_bytes());
    match aead_seal(&key, nonce, plaintext) {
        None => Err(CryptoError::EncryptionFailed),
        Some(sealed) => {
            if sealed.len() / 3 >= usize::MAX / 4 {
                return Err(CryptoError::EncryptionFailed);
            }
            let ciphertext = base64_encode(&sealed);
            let nonce_text = base64_encode(nonce);
            Ok((ciphertext, nonce_text))
        },
    }
}

/// Seals `plaintext` under `secret` with a nonce freshly drawn from the
/// operating system's random source. Whatever nonce was drawn, the result
/// decrypts to `plaintext` again under the same secret.
pub fn encrypt(plaintext: &Vec<u8>, secret: &str) -> (result: Result<(String, String), CryptoError>)
    ensures
        result matches Ok((ciphertext, nonce_text)) ==> {
            &&& spec_decrypt(ciphertext@, nonce_text@, secret@) == Some(plaintext@)
            &&& exists|nonce: Seq<u8>|
                nonce.len() == NONCE_LEN && (ciphertext@, nonce_text@) == #[trigger] spec_encrypt(
                    plaintext@,
                    secret@,
                    nonce,
                )
        },
        result matches Err(e) ==> e == CryptoError::EncryptionFailed,
        !sealable(plaintext@.len() as int) ==> result is Err,
{
    match fresh_nonce() {
        None => Err(CryptoError::EncryptionFailed),
        Some(nonce) => {
            match encrypt_with_nonce(plaintext, secret, &nonce) {
                Ok((ciphertext, nonce_text)) => {
                    assert((ciphertext@, nonce_text@) == spec_encrypt(plaintext@, secret@, nonce@));
                    Ok((ciphertext, nonce_text))
                },
                Err(e) => Err(e),
            }
        },
    }
}

/// Opens `ciphertext` under `secret` and `nonce`: the plaintext, or
/// `DecryptionFailed` where there is none.
pub fn decrypt(ciphertext: &str, nonce: &str, secret: &str) -> (result: Result<Vec<u8>, CryptoError>)
    ensures
        match result {
            Ok(plaintext) => spec_decrypt(ciphertext@, nonce@, secret@) == Some(plaintext@),
            Err(e) => e == CryptoError::DecryptionFailed && spec_decrypt(
                ciphertext@,
                nonce@,
                secret@,
            ) is None,
        },
{
    let sealed = match base64_decode(ciphertext) {
        Some(bytes) => bytes,
        None => {
            return Err(CryptoError::DecryptionFailed);
        },
    };
    let nonce_bytes = match base64_decode(nonce) {
        Some(bytes) => bytes,
        None => {
            return Err(CryptoError::DecryptionFailed);
        },
    };
    if nonce_bytes.len() != NONCE_LEN {
        return Err(CryptoError::DecryptionFailed);
    }
    let key = digest(secret.as_bytes());
    match aead_open(&key, &nonce_bytes, &sealed) {
        Some(plaintext) => Ok(plaintext),
        None => Err(CryptoError::DecryptionFailed),
    }
}

/// Wraps the user's data key for storage on this device: the key is sealed
/// under a secret derived from the device's identity, so that it never
/// rests on disk in the clear. What is returned unwraps to the key again on
/// the same device.
pub fn encrypt_encryption_key(plaintext_key: &str, device_id: &str) -> (result: Result<
    (String, String),
    CryptoError,
>)
    ensures
        result matches Ok((wrapped, nonce_text)) ==> spec_unwrap(wrapped@, nonce_text@, device_id@)
            == Some(plaintext_key@),
        result matches Err(e) ==> e == CryptoError::EncryptionFailed,
        !sealable(encode_utf8(plaintext_key@).len() as int) ==> result is Err,
{
    let bytes = plaintext_key.as_bytes_vec();
    proof {
        encode_utf8_valid_utf8(plaintext_key@);
        encode_utf8_decode_utf8(plaintext_key@);
    }
    encrypt(&bytes, device_id)
}

/// Recovers the user's data key from its wrapped form on the device that
/// wrapped it; `KeyUnwrapFailed` where that is not possible.
pub fn decrypt_encryption_key(wrapped: &str, nonce: &str, device_id: &str) -> (result: Result<
    String,
    CryptoError,
>)
    ensures
        match result {
            Ok(key) => spec_unwrap(wrapped@, nonce@, device_id@) == Some(key@),
            Err(e) => e == CryptoError::KeyUnwrapFailed && spec_unwrap(wrapped@, nonce@, device_id@)
                is None,
        },
{
    match decrypt(wrapped, nonce, device_id) {
        Err(_) => Err(CryptoError::KeyUnwrapFailed),
        Ok(bytes) => match text_from_utf8(bytes) {
            Some(key) => Ok(key),
            None => Err(CryptoError::KeyUnwrapFailed),
        },
    }
}

/// The lowercase hexadecimal digit for a value below sixteen.
pub open spec fn hex_digit(value: int) -> char {
    if value == 0 {
        '0'
    } else if value == 1 {
        '1'
    } else if value == 2 {
        '2'
    } else if value == 3 {
        '3'
    } else if value == 4 {
        '4'
    } else if value == 5 {
        '5'
    } else if value == 6 {
        '6'
    } else if value == 7 {
        '7'
    } else if value == 8 {
        '8'
    } else if value == 9 {
        '9'
    } else if value == 10 {
        'a'
    } else if value == 11 {
        'b'
    } else if value == 12 {
        'c'
    } else if value == 13 {
        'd'
    } else if value == 14 {
        'e'
    } else {
        'f'
    }
}

/// The bytes written as lowercase hexadecimal text, two digits to a byte,
/// the high one first.
pub open spec fn hex_text(bytes: Seq<u8>) -> Seq<char> {
    Seq::new(
        2 * bytes.len(),
        |i: int|
            if i % 2 == 0 {
                hex_digit(bytes[i / 2] as int / 16)
            } else {
                hex_digit(bytes[i / 2] as int % 16)
            },
    )
}

/// One hexadecimal digit as text.
pub(crate) fn hex_digit_text(value: u8) -> (text: &'static str)
    requires
        value < 16,
    ensures
        text@ == seq![hex_digit(value as int)],
{
    proof {
        reveal_strlit("0");
        reveal_strlit("1");
        reveal_strlit("2");
        reveal_strlit("3");
        reveal_strlit("4");
        reveal_strlit("5");
        reveal_strlit("6");
        reveal_strlit("7");
        reveal_strlit("8");
        reveal_strlit("9");
        reveal_strlit("a");
        reveal_strlit("b");
        reveal_strlit("c");
        reveal_strlit("d");
        reveal_strlit("e");
        reveal_strlit("f");
    }
    let text = match value {
        0 => "0",
        1 => "1",
        2 => "2",
        3 => "3",
        4 => "4",
        5 => "5",
        6 => "6",
        7 => "7",
        8 => "8",
        9 => "9",
        10 => "a",
        11 => "b",
        12 => "c",
        13 => "d",
        14 => "e",
        _ => "f",
    };
    assert(text@ =~= seq![hex_digit(value as int)]);
    text
}

/// Writes bytes as lowercase hexadecimal text.
pub fn hex_encode(bytes: &Vec<u8>) -> (text: String)
    ensures
        text@ == hex_text(bytes@),
{
    let mut text = String::new();
    let n = bytes.len();
    let mut i: usize = 0;
    while i < n
        invariant
            n == bytes@.len(),
            i <= n,
            text@ == hex_text(bytes@.take(i as int)),
        decreases n - i,
    {
        let byte = bytes[i];
        let ghost before = text@;
        text.append(hex_digit_text(byte / 16));
        text.append(hex_digit_text(byte % 16));
        assert(text@ =~= hex_text(bytes@.take(i + 1))) by {
            let next = bytes@.take(i + 1);
            let prev = bytes@.take(i as int);
            assert forall|k: int| 0 <= k < 2 * i implies hex_text(next)[k] == before[k] by {
                assert(next[k / 2] == prev[k / 2]);
            }
            assert(next[i as int] == byte);
        }
        i += 1;
    }
    assert(bytes@.take(n as int) =~= bytes@);
    text
}

/// The fingerprint of a text: the BLAKE3 digest of its UTF-8 bytes, as
/// hexadecimal text.
pub open spec fn spec_fingerprint(text: Seq<char>) -> Seq<char> {
    hex_text(spec_blake3(encode_utf8(text)))
}

/// Computes the fingerprint of a text. Equal texts have equal fingerprints,
/// and every fingerprint is 64 digits long.
pub fn fingerprint(text: &str) -> (print: String)
    ensures
        print@ == spec_fingerprint(text@),
        print@.len() == 64,
{
    let bytes = digest(text.as_bytes());
    hex_encode(&bytes)
}

/// The identity of a device, derived from a description of the host:
/// the description's fingerprint, so that the same host always has the same
/// identity. An empty description gives none.
pub fn derive_device_id(host: &str) -> (id: Result<String, CryptoError>)
    ensures
        match id {
            Ok(text) => host@.len() > 0 && text@ == spec_fingerprint(host@),
            Err(e) => host@.len() == 0 && e == CryptoError::DeviceDerivationFailed,
        },
{
    if host.unicode_len() == 0 {
        Err(CryptoError::DeviceDerivationFailed)
    } else {
        Ok(fingerprint(host))
    }
}

} // verus!
