use vstd::prelude::*;
use vstd::string::*;
use vstd::utf8::{decode_utf8, encode_utf8, valid_utf8};

use crate::file::FileError;

verus! {

/// Classified failure of the cryptographic codec, mirroring the error
/// taxonomy of the `cocoon` container format.
#[derive(Clone, Copy, Debug, PartialEq, Eq, Structural)]
pub enum CryptoError {
    /// Authentication failed: wrong passphrase or compromised integrity.
    Cryptography,
    /// The container format is not recognized; probably corrupted.
    UnrecognizedFormat,
    /// The container is too large to process on this architecture.
    TooLarge,
    /// The container is too short to hold what its header announces.
    TooShort,
    /// I/O failure reported from inside the codec.
    Io,
}

impl CryptoError {
    /// User-facing text for this error.
    pub open spec fn message_spec(self) -> Seq<char> {
        match self {
            CryptoError::Cryptography => "Invalid password"@,
            CryptoError::UnrecognizedFormat => "Invalid file: Unrecognized format"@,
            CryptoError::TooLarge => "Invalid file: Too large"@,
            CryptoError::TooShort => "Invalid file: Too short"@,
            CryptoError::Io => "Input/output error"@,
        }
    }

    /// User-facing text for this error.
    pub fn message(&self) -> (r: &'static str)
        ensures
            r@ == self.message_spec(),
    {
        match self {
            CryptoError::Cryptography => "Invalid password",
            CryptoError::UnrecognizedFormat => "Invalid file: Unrecognized format",
            CryptoError::TooLarge => "Invalid file: Too large",
            CryptoError::TooShort => "Invalid file: Too short",
            CryptoError::Io => "Input/output error",
        }
    }
}

/// What `cocoon::Cocoon::unwrap` returns for a container and a password:
/// `Some` of the wrapped payload when the container authenticates under that
/// password, `None` when unwrapping fails. Unwrapping is a deterministic
/// function of the container bytes and the password alone.
pub uninterp spec fn unwrapped(container: Seq<u8>, password: Seq<u8>) -> Option<Seq<u8>>;

/// Big-endian value of the eight bytes `b[at .. at + 8]`.
pub open spec fn be_u64_at(b: Seq<u8>, at: int) -> int {
    b[at] * 0x100000000000000 + b[at + 1] * 0x1000000000000 + b[at + 2] * 0x10000000000 + b[at
        + 3] * 0x100000000 + b[at + 4] * 0x1000000 + b[at + 5] * 0x10000 + b[at + 6] * 0x100 + b[at
        + 7]
}

/// The container's header announces a payload length (its bytes 36..44, big
/// endian) so large that adding it to the 60-byte prefix size overflows a
/// 64-bit count. `cocoon::Cocoon::unwrap` aborts on such a container instead
/// of returning a classified error, so the codec classifies it first and
/// never hands it to the cipher.
pub open spec fn announced_len_oversized(container: Seq<u8>) -> bool {
    container.len() >= 60 && be_u64_at(container, 36) > u64::MAX - 60
}

/// What decrypting a container under a passphrase yields, as a total
/// function: a container whose announced payload length cannot fit is a
/// failure without consulting the cipher; any other container yields what
/// `cocoon::Cocoon::unwrap` returns for it.
pub open spec fn decryption(container: Seq<u8>, password: Seq<u8>) -> Option<Seq<u8>> {
    if announced_len_oversized(container) {
        None
    } else {
        unwrapped(container, password)
    }
}

/// Relies on `cocoon::Cocoon::new` and `Cocoon::wrap` (cocoon 0.4.3): `wrap`
/// returns the fixed 60-byte format prefix followed by one ciphertext byte
/// per payload byte, with the payload length written into the prefix's
/// length field, and `Cocoon::unwrap` on that container with the same
/// password returns the payload again. Under the default configuration the
/// only failure is the cipher's length cap, and ChaCha20-Poly1305 accepts
/// every payload short of 2^38 bytes, so a payload under 2^32 bytes is
/// always wrapped.
#[verifier::external_body]
fn cocoon_wrap(plain: &[u8], password: &[u8]) -> (r: Result<Vec<u8>, CryptoError>)
    ensures
        r matches Ok(c) ==> c@.len() == plain@.len() + 60 && !announced_len_oversized(c@)
            && unwrapped(c@, password@) == Some(plain@),
        plain@.len() < 0x100000000 ==> r is Ok,
{
    let mut cocoon = cocoon::Cocoon::new(password);
    match cocoon.wrap(plain) {
        Ok(container) => Ok(container),
        Err(cocoon::Error::Cryptography) => Err(CryptoError::Cryptography),
        Err(cocoon::Error::UnrecognizedFormat) => Err(CryptoError::UnrecognizedFormat),
        Err(cocoon::Error::TooLarge) => Err(CryptoError::TooLarge),
        Err(cocoon::Error::TooShort) => Err(CryptoError::TooShort),
        Err(cocoon::Error::Io(_)) => Err(CryptoError::Io),
    }
}

/// Relies on `cocoon::Cocoon::new` and `Cocoon::unwrap` (cocoon 0.4.3):
/// `unwrap` deterministically recovers the wrapped payload from the
/// container bytes and the password, and classifies any failure into the
/// error taxonomy above — except on a container whose announced payload
/// length overflows the 64-bit sum with the prefix size, where `unwrap`
/// aborts instead of returning. The `requires` leaves those containers out;
/// [`decrypt`] classifies them before calling here.
#[verifier::external_body]
fn cocoon_unwrap(container: &[u8], password: &[u8]) -> (r: Result<Vec<u8>, CryptoError>)
    requires
        !announced_len_oversized(container@),
    ensures
        r matches Ok(p) ==> unwrapped(container@, password@) == Some(p@),
        r is Err ==> unwrapped(container@, password@) is None,
{
    let cocoon = cocoon::Cocoon::new(password);
    match cocoon.unwrap(container) {
        Ok(payload) => Ok(payload),
        Err(cocoon::Error::Cryptography) => Err(CryptoError::Cryptography),
        Err(cocoon::Error::UnrecognizedFormat) => Err(CryptoError::UnrecognizedFormat),
        Err(cocoon::Error::TooLarge) => Err(CryptoError::TooLarge),
        Err(cocoon::Error::TooShort) => Err(CryptoError::TooShort),
        Err(cocoon::Error::Io(_)) => Err(CryptoError::Io),
    }
}

/// Relies on `String::from_utf8`: it succeeds exactly on valid UTF-8 input,
/// returning the string of the decoded scalar values.
#[verifier::external_body]
fn bytes_to_string(bytes: Vec<u8>) -> (r: Option<String>)
    ensures
        r matches Some(s) ==> valid_utf8(bytes@) && s@ == decode_utf8(bytes@),
        r is None ==> !valid_utf8(bytes@),
{
    String::from_utf8(bytes).ok()
}

/// Whether the container announces a payload length too large to process:
/// its 8-byte big-endian length field exceeds `u64::MAX - 60`.
fn announced_len_is_oversized(container: &[u8]) -> (r: bool)
    ensures
        r == announced_len_oversized(container@),
{
    if container.len() < 60 {
        return false;
    }
    let value: u64 = (container[36] as u64) * 0x100000000000000 + (container[37] as u64)
        * 0x1000000000000 + (container[38] as u64) * 0x10000000000 + (container[39] as u64)
        * 0x100000000 + (container[40] as u64) * 0x1000000 + (container[41] as u64) * 0x10000 + (
    container[42] as u64) * 0x100 + (container[43] as u64);
    value > u64::MAX - 60
}

/// Encrypt a byte buffer under a passphrase-derived key.
///
/// On success the result is an authenticated container: decrypting it with
/// the same passphrase yields `plain` again, and it is 60 bytes longer than
/// the plaintext (the container's format prefix). Success is owed for every
/// payload under 2^32 bytes.
pub fn encrypt(plain: &[u8], passphrase: &[u8]) -> (r: Result<Vec<u8>, CryptoError>)
    ensures
        r matches Ok(c) ==> c@.len() == plain@.len() + 60 && decryption(c@, passphrase@) == Some(
            plain@,
        ),
        plain@.len() < 0x100000000 ==> r is Ok,
{
    cocoon_wrap(plain, passphrase)
}

/// Decrypt an encrypted container under a passphrase-derived key.
///
/// Succeeds exactly when the container authenticates under this passphrase,
/// and then returns the original plaintext; any failure is classified, never
/// a crash. A container whose announced payload length cannot fit is
/// classified as too large before the cipher sees it.
pub fn decrypt(container: &[u8], passphrase: &[u8]) -> (r: Result<Vec<u8>, CryptoError>)
    ensures
        r matches Ok(p) ==> decryption(container@, passphrase@) == Some(p@),
        r is Err <==> decryption(container@, passphrase@) is None,
        announced_len_oversized(container@) ==> r == Err::<Vec<u8>, CryptoError>(
            CryptoError::TooLarge,
        ),
{
    if announced_len_is_oversized(container) {
        return Err(CryptoError::TooLarge);
    }
    cocoon_unwrap(container, passphrase)
}

/// Serialize document contents to bytes and encrypt them: the compute part
/// of a save operation. Success is owed whenever the encoded text stays
/// under 2^32 bytes.
pub fn encrypt_contents(contents: &str, passphrase: &str) -> (r: Result<Vec<u8>, CryptoError>)
    ensures
        r matches Ok(c) ==> c@.len() == encode_utf8(contents@).len() + 60 && decryption(
            c@,
            encode_utf8(passphrase@),
        ) == Some(encode_utf8(contents@)),
        encode_utf8(contents@).len() < 0x100000000 ==> r is Ok,
{
    encrypt(contents.as_bytes(), passphrase.as_bytes())
}

/// Decrypt an encrypted container and decode the payload as text: the
/// compute part of a load operation.
///
/// Succeeds exactly when the container authenticates under this passphrase
/// and the payload is valid text; each failure class is reported apart.
pub fn decrypt_contents(container: &[u8], passphrase: &str) -> (r: Result<String, FileError>)
    ensures
        decryption(container@, encode_utf8(passphrase@)) is None ==> r matches Err(
            FileError::Cryption(_),
        ),
        decryption(container@, encode_utf8(passphrase@)) matches Some(b) ==> ({
            &&& !valid_utf8(b) ==> r == Err::<String, FileError>(FileError::FromUtf8)
            &&& valid_utf8(b) ==> (r matches Ok(s) && s@ == decode_utf8(b))
        }),
        announced_len_oversized(container@) ==> r == Err::<String, FileError>(
            FileError::Cryption(CryptoError::TooLarge),
        ),
{
    match decrypt(container, passphrase.as_bytes()) {
        Ok(payload) => match bytes_to_string(payload) {
            Some(contents) => Ok(contents),
            None => Err(FileError::FromUtf8),
        },
        Err(e) => Err(FileError::Cryption(e)),
    }
}

} // verus!
