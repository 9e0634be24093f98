//! Credentials made and checked by the relay.
//!
//! Pairing codes and device tokens carry 160 and 256 bits of entropy, so a
//! keyed hash suffices to store them and stays fast enough to check on every
//! agent reconnect; the server pepper keeps a stolen database alone from
//! confirming guesses offline. Nothing here returns or logs a plaintext
//! secret beyond the one it generates.

use vstd::prelude::*;
use vstd::string::StringSliceAdditionalSpecFns;
use crate::relay::error::AppError;
use crate::text::concat;
use crate::encoding::{b64_encode, is_base64url_char, lemma_url_safe_shape};

verus! {

/// 160 bits: 27 unpadded Base64URL characters.
pub const PAIRING_CODE_BYTES: usize = 20;
/// 256 bits: 43 unpadded Base64URL characters.
pub const DEVICE_TOKEN_BYTES: usize = 32;

/// Whether `phc` parses as a PHC string (password-hash's `PasswordHash::new`).
pub uninterp spec fn phc_parses(phc: Seq<char>) -> bool;

/// Whether Argon2 with its default parameters accepts `password` against the
/// parsed PHC string `phc` (argon2's `PasswordVerifier::verify_password`).
pub uninterp spec fn argon2_accepts(phc: Seq<char>, password: Seq<u8>) -> bool;

/// Whether a stored PHC string matches a password: it parses, and Argon2
/// accepts the password against it.
pub open spec fn password_matches(phc: Seq<char>, password: Seq<u8>) -> bool {
    phc_parses(phc) && argon2_accepts(phc, password)
}

/// Hashes `password` with `Argon2::default()` (Argon2id) under a salt that
/// password-hash's `SaltString::generate` draws from `OsRng`, and renders the
/// hash as its PHC string; `Err` holds the error's message. The salt is
/// random, so the string is not named; what is stated is what
/// `PasswordVerifier` documents of a hash it produced: the string parses
/// again, and the same password is accepted against it.
#[verifier::external_body]
fn argon2_hash(password: &[u8]) -> (r: Result<String, String>)
    ensures
        r matches Ok(h) ==> phc_parses(h@) && argon2_accepts(h@, password@),
{
    let salt = argon2::password_hash::SaltString::generate(
        &mut argon2::password_hash::rand_core::OsRng,
    );
    match argon2::PasswordHasher::hash_password(&argon2::Argon2::default(), password, &salt) {
        Ok(h) => Ok(h.to_string()),
        Err(e) => Err(e.to_string()),
    }
}

/// Whether `phc` parses as a PHC string (password-hash's `PasswordHash::new`).
#[verifier::external_body]
fn phc_is_well_formed(phc: &str) -> (r: bool)
    ensures
        r == phc_parses(phc@),
{
    argon2::PasswordHash::new(phc).is_ok()
}

/// Verifies `password` against the PHC string `phc` with `Argon2::default()`
/// (argon2's `PasswordVerifier::verify_password`, read as a `bool`).
#[verifier::external_body]
fn argon2_verify(phc: &str, password: &[u8]) -> (r: bool)
    requires
        phc_parses(phc@),
    ensures
        r == argon2_accepts(phc@, password@),
{
    match argon2::PasswordHash::new(phc) {
        Ok(parsed) => argon2::PasswordVerifier::verify_password(
            &argon2::Argon2::default(),
            password,
            &parsed,
        ).is_ok(),
        Err(_) => false,
    }
}

/// Encodes `bytes` with base64's `URL_SAFE_NO_PAD` engine.
#[verifier::external_body]
fn encode_url_safe_no_pad(bytes: &[u8]) -> (r: String)
    ensures
        r@ == b64_encode(bytes@, true, false),
{
    base64::Engine::encode(&base64::engine::general_purpose::URL_SAFE_NO_PAD, bytes)
}

/// Fills `buf` from the operating system's random source (rand's `OsRng`,
/// whose `fill_bytes` panics if the source fails). The bytes are random:
/// only the length is stated.
#[verifier::external_body]
fn fill_random(buf: &mut [u8])
    ensures
        final(buf)@.len() == old(buf)@.len(),
{
    rand::RngCore::fill_bytes(&mut rand::rngs::OsRng, buf)
}

/// HMAC-SHA-256 of `message` under `key`, as a function of the two.
pub uninterp spec fn hmac_sha256(key: Seq<u8>, message: Seq<u8>) -> Seq<u8>;

/// HMAC-SHA-256 of `message` under `key` (hmac's `Hmac<Sha256>`: keyed
/// with `new_from_slice`, which accepts keys of any length, fed with
/// `update` and read with `finalize`). The tag is 32 bytes.
#[verifier::external_body]
fn hmac_sha256_tag(key: &[u8], message: &[u8]) -> (r: Vec<u8>)
    ensures
        r@ == hmac_sha256(key@, message@),
        r@.len() == 32,
{
    let mut mac = <hmac::Hmac<sha2::Sha256> as hmac::Mac>::new_from_slice(key).expect(
        "HMAC accepts keys of any length",
    );
    hmac::Mac::update(&mut mac, message);
    hmac::Mac::finalize(mac).into_bytes().to_vec()
}

/// Compares two byte strings in time independent of their contents once the
/// lengths agree (subtle's `ConstantTimeEq` for slices, read as a `bool`):
/// true exactly when they are equal.
#[verifier::external_body]
fn constant_time_eq(a: &[u8], b: &[u8]) -> (r: bool)
    ensures
        r == (a@ == b@),
{
    subtle::ConstantTimeEq::ct_eq(a, b).into()
}

/// Hashes a user password with Argon2id and a fresh random salt, as a PHC
/// string. A password is always accepted against its own hash.
pub fn hash_password(password: &str) -> (r: Result<String, AppError>)
    ensures
        r matches Ok(h) ==> password_matches(h@, password.spec_bytes()),
        r matches Err(e) ==> e.status == crate::relay::error::STATUS_INTERNAL_SERVER_ERROR
            && e.message@ == "Internal server error"@ && (e.internal matches Some(d) && exists|m: Seq<char>|
            d@ == "password hashing failed: "@ + m),
{
    match argon2_hash(password.as_bytes()) {
        Ok(h) => Ok(h),
        Err(m) => {
            let detail = concat("password hashing failed: ", m.as_str());
            let e = AppError::internal(detail.as_str());
            assert(e.internal matches Some(d) && d@ == "password hashing failed: "@ + m@);
            Err(e)
        },
    }
}

/// Verifies a password against a stored PHC string. A stored string that
/// does not parse counts as "does not match" rather than as an error, so a
/// caller cannot tell it from a wrong password.
pub fn verify_password(stored_phc: &str, password: &str) -> (r: bool)
    ensures
        r == password_matches(stored_phc@, password.spec_bytes()),
{
    if !phc_is_well_formed(stored_phc) {
        return false;
    }
    argon2_verify(stored_phc, password.as_bytes())
}

/// `n` random bytes in URL-safe base64.
fn random_base64url(n: usize) -> (r: String)
    ensures
        exists|b: Seq<u8>| b.len() == n && r@ == b64_encode(b, true, false),
        r@.len() == (4 * n + 2) / 3,
        forall|i: int| 0 <= i < r@.len() ==> is_base64url_char(#[trigger] r@[i]),
{
    let mut buf: Vec<u8> = vec![0u8; n];
    fill_random(buf.as_mut_slice());
    let r = encode_url_safe_no_pad(buf.as_slice());
    proof {
        lemma_url_safe_shape(buf@);
    }
    r
}

/// A fresh pairing code: 160 random bits as 27 URL-safe base64 characters.
pub fn generate_pairing_code() -> (r: String)
    ensures
        exists|b: Seq<u8>| b.len() == PAIRING_CODE_BYTES && r@ == b64_encode(b, true, false),
        r@.len() == 27,
        forall|i: int| 0 <= i < r@.len() ==> is_base64url_char(#[trigger] r@[i]),
{
    random_base64url(PAIRING_CODE_BYTES)
}

/// A fresh device token: 256 random bits as 43 URL-safe base64 characters.
pub fn generate_device_token() -> (r: String)
    ensures
        exists|b: Seq<u8>| b.len() == DEVICE_TOKEN_BYTES && r@ == b64_encode(b, true, false),
        r@.len() == 43,
        forall|i: int| 0 <= i < r@.len() ==> is_base64url_char(#[trigger] r@[i]),
{
    random_base64url(DEVICE_TOKEN_BYTES)
}

/// The keyed digest of a high-entropy secret: HMAC-SHA-256 of its UTF-8
/// bytes under the pepper. Deterministic, so a database can look it up by
/// equality.
pub fn digest_secret(pepper: &[u8], secret: &str) -> (r: Vec<u8>)
    ensures
        r@ == hmac_sha256(pepper@, secret.spec_bytes()),
        r@.len() == 32,
{
    hmac_sha256_tag(pepper, secret.as_bytes())
}

/// Compares two digests in constant time, for a candidate checked against
/// one already in hand rather than looked up by the database.
pub fn digests_match(a: &[u8], b: &[u8]) -> (r: bool)
    ensures
        r == (a@ == b@),
{
    constant_time_eq(a, b)
}

} // verus!
