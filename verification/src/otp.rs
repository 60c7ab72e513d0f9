//! Secrets and one-time codes of the second factor.
//!
//! A secret is a run of random bytes, kept and shown as base32 text. A code is
//! six digits derived from the secret and from the number of the 30-second
//! interval in which it is asked for, by HMAC-SHA-1. The constants of this
//! module hold these numbers; the calls are made with them.

use vstd::prelude::*;

verus! {

/// The base32 text of a run of bytes, in the alphabet `A`-`Z`, `2`-`7`, without
/// padding.
pub uninterp spec fn base32_text(bytes: Seq<u8>) -> Seq<char>;

/// The bytes that a base32 text stands for; `None` where the text is not base32.
pub uninterp spec fn base32_bytes(text: Seq<char>) -> Option<Seq<u8>>;

/// The bytes of an optional run.
pub open spec fn optional_bytes(bytes: Option<Vec<u8>>) -> Option<Seq<u8>> {
    match bytes {
        Some(b) => Some(b@),
        None => None,
    }
}

/// Calls `rand::thread_rng` and `Rng::gen` for an array of 21 bytes. Trusted: 21
/// bytes come back; nothing is said of what they are.
#[verifier::external_body]
pub(crate) fn random_secret() -> (secret: Vec<u8>)
    ensures
        secret@.len() == 21,
{
    let bytes: [u8; 21] = rand::Rng::gen(&mut rand::thread_rng());
    bytes.to_vec()
}

/// Calls `base32::encode` with the alphabet of RFC 4648 and no padding. Trusted:
/// the text depends on the bytes alone.
#[verifier::external_body]
pub(crate) fn encode_secret(bytes: &Vec<u8>) -> (text: String)
    ensures
        text@ == base32_text(bytes@),
{
    base32::encode(base32::Alphabet::Rfc4648 { padding: false }, bytes)
}

/// Calls `totp_rs::Secret::to_bytes` on an encoded secret, which decodes base32 in
/// the alphabet of RFC 4648 without padding. Trusted: whether the text decodes,
/// and to which bytes, depends on the text alone.
#[verifier::external_body]
pub(crate) fn decode_secret(text: &str) -> (bytes: Option<Vec<u8>>)
    ensures
        optional_bytes(bytes) == base32_bytes(text@),
{
    match totp_rs::Secret::Encoded(text.to_string()).to_bytes() {
        Ok(bytes) => Some(bytes),
        Err(_) => None,
    }
}

/// The hash function that codes are derived with.
#[derive(Clone, Copy, Debug, PartialEq, Eq, Structural, Hash)]
pub enum CodeHash {
    Sha1,
    Sha256,
    Sha512,
}

/// Codes are derived with SHA-1.
pub const CODE_HASH: CodeHash = CodeHash::Sha1;

/// A code has six digits.
pub const CODE_DIGITS: usize = 6;

/// A code holds for an interval of 30 seconds.
pub const CODE_STEP: u64 = 30;

/// Only the code of the current interval counts: no neighbouring interval is
/// tolerated.
pub const TOLERATED_INTERVALS: u8 = 0;

/// The largest number that a code of six digits can be.
pub const MAX_CODE: i32 = 999_999;

/// Whether a generator of codes can be made: the number of digits is 6, 7 or 8
/// and the secret has at least 16 bytes.
pub open spec fn can_generate(digits: usize, secret: Seq<u8>) -> bool {
    6 <= digits <= 8 && secret.len() >= 16
}

/// Calls `totp_rs::TOTP::new` with the hash function, the number of digits, the
/// number of tolerated neighbouring intervals and the step that it is given,
/// then `get_secret_base32`. Trusted: a generator is made exactly for 6 to 8
/// digits and a secret of 16 bytes or more, and the text it gives for its
/// secret is the base32 text of the secret's bytes.
#[verifier::external_body]
pub(crate) fn provisioning_secret(
    hash: CodeHash,
    digits: usize,
    tolerated: u8,
    step: u64,
    secret: Vec<u8>,
) -> (text: Option<String>)
    ensures
        text is Some <==> can_generate(digits, secret@),
        text matches Some(t) ==> t@ == base32_text(secret@),
{
    let algorithm = match hash {
        CodeHash::Sha1 => totp_rs::Algorithm::SHA1,
        CodeHash::Sha256 => totp_rs::Algorithm::SHA256,
        CodeHash::Sha512 => totp_rs::Algorithm::SHA512,
    };
    match totp_rs::TOTP::new(algorithm, digits, tolerated, step, secret) {
        Ok(totp) => Some(totp.get_secret_base32()),
        Err(_) => None,
    }
}

/// Calls `totp_rs::TOTP::new` as above, then `check_current`, which compares the
/// code with the one of the interval that the system clock is in. Trusted: no
/// answer comes where no generator can be made. Whether a code matches depends
/// on the clock, so nothing is said of it. The step must not be 0, by which the
/// time is divided, and no neighbouring interval may be tolerated, which would
/// be counted back from the current one.
#[verifier::external_body]
pub(crate) fn code_matches_now(
    hash: CodeHash,
    digits: usize,
    tolerated: u8,
    step: u64,
    secret: Vec<u8>,
    code: &str,
) -> (matched: Option<bool>)
    requires
        step > 0,
        tolerated == 0,
    ensures
        !can_generate(digits, secret@) ==> matched is None,
{
    let algorithm = match hash {
        CodeHash::Sha1 => totp_rs::Algorithm::SHA1,
        CodeHash::Sha256 => totp_rs::Algorithm::SHA256,
        CodeHash::Sha512 => totp_rs::Algorithm::SHA512,
    };
    match totp_rs::TOTP::new(algorithm, digits, tolerated, step, secret) {
        Ok(totp) => totp.check_current(code).ok(),
        Err(_) => None,
    }
}

} // verus!
