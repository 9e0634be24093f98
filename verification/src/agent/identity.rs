//! The device identity: an Ed25519 key generated on first run and kept
//! beside the agent configuration. The library holds the key's 32-byte seed;
//! ed25519-dalek derives the public key from it. Reading and writing the file
//! is the application's part, and so is choosing its place.

use vstd::prelude::*;
use crate::agent::{AgentError, AgentFault};
use crate::relay::api::devices::{hex_key, hex_text};
use crate::text::concat;
use crate::encoding::{b64_decode, b64_encode, lemma_b64_round_trip};

verus! {

/// The length of an Ed25519 seed, and of a public key.
pub const SEED_LEN: usize = 32;

/// The Ed25519 public key of the signing key whose seed is `seed`.
pub uninterp spec fn ed25519_public_key(seed: Seq<u8>) -> Seq<u8>;

/// Encodes `bytes` with base64's padded `STANDARD` engine.
#[verifier::external_body]
fn encode_standard(bytes: &[u8]) -> (r: String)
    ensures
        r@ == b64_encode(bytes@, false, true),
{
    base64::Engine::encode(&base64::engine::general_purpose::STANDARD, bytes)
}

/// Decodes `text` with base64's padded `STANDARD` engine, which requires
/// canonical padding and zero trailing bits, so it accepts exactly the
/// padded standard encodings; `Err` holds the engine's error message, whose
/// wording is not stated.
#[verifier::external_body]
fn decode_standard(text: &str) -> (r: Result<Vec<u8>, String>)
    ensures
        match r {
            Ok(v) => b64_decode(text@, false, true) == Some(v@),
            Err(_) => b64_decode(text@, false, true) is None,
        },
{
    match base64::Engine::decode(&base64::engine::general_purpose::STANDARD, text) {
        Ok(v) => Ok(v),
        Err(e) => Err(e.to_string()),
    }
}

/// The public key of the Ed25519 signing key with seed `seed`
/// (ed25519-dalek's `SigningKey::from_bytes`, `verifying_key`, `to_bytes`).
#[verifier::external_body]
fn public_key_of(seed: &[u8; 32]) -> (r: [u8; 32])
    ensures
        r@ == ed25519_public_key(seed@),
{
    ed25519_dalek::SigningKey::from_bytes(seed).verifying_key().to_bytes()
}

/// The seed of a signing key that ed25519-dalek's `SigningKey::generate`
/// draws from the operating system's random source (rand's `OsRng`). The
/// seed is random: nothing is stated of it.
#[verifier::external_body]
fn generate_seed() -> (r: [u8; 32]) {
    ed25519_dalek::SigningKey::generate(&mut rand::rngs::OsRng).to_bytes()
}

/// A device's Ed25519 signing key, held as its seed.
pub struct DeviceIdentity {
    seed: [u8; 32],
}

impl View for DeviceIdentity {
    type V = Seq<u8>;

    /// The seed.
    closed spec fn view(&self) -> Seq<u8> {
        self.seed@
    }
}

/// The fingerprint of a public key: its first eight bytes in lowercase
/// hexadecimal.
pub open spec fn fingerprint_of(public_key: Seq<u8>) -> Seq<char> {
    hex_text(public_key.subrange(0, 8))
}

/// What the stored seed text decodes to: the identity with that seed, or
/// the configuration error for text that is not base64 (`None`: the message
/// goes on with the decoder's own words) or that is not 32 bytes long.
pub open spec fn stored_seed_fault(text: Seq<char>) -> Option<Option<Seq<char>>> {
    match b64_decode(text, false, true) {
        None => Some(None),
        Some(b) => if b.len() != 32 {
            Some(Some("identity seed is not 32 bytes"@))
        } else {
            None
        },
    }
}

impl DeviceIdentity {
    /// A fresh identity with a random seed.
    pub fn generate() -> (r: Self)
        ensures
            r@.len() == 32,
    {
        DeviceIdentity { seed: generate_seed() }
    }

    /// The 32-byte Ed25519 public key.
    pub fn public_key_bytes(&self) -> (r: [u8; 32])
        ensures
            r@ == ed25519_public_key(self@),
    {
        public_key_of(&self.seed)
    }

    /// A short hexadecimal prefix of the public key, for logs and status
    /// output only: 16 characters.
    pub fn fingerprint(&self) -> (r: String)
        ensures
            r@ == fingerprint_of(ed25519_public_key(self@)),
            r@.len() == 16,
    {
        let key = self.public_key_bytes();
        let mut head: Vec<u8> = Vec::new();
        let mut i: usize = 0;
        while i < 8
            invariant
                i <= 8,
                key@.len() == 32,
                head@ == key@.subrange(0, i as int),
            decreases 8 - i,
        {
            head.push(key[i]);
            i = i + 1;
            assert(head@ =~= key@.subrange(0, i as int));
        }
        let r = hex_key(head.as_slice());
        proof {
            lemma_hex_text_len(head@);
        }
        r
    }

    /// The seed as the identity file stores it: padded standard base64.
    pub fn stored_seed(&self) -> (r: String)
        ensures
            r@ == b64_encode(self@, false, true),
            b64_decode(r@, false, true) == Some(self@),
            stored_seed_fault(r@) is None,
    {
        let r = encode_standard(self.seed.as_slice());
        proof {
            lemma_b64_round_trip(self@, false, true);
        }
        r
    }

    /// The identity whose seed the identity file stores as `text`.
    pub fn decode(text: &str) -> (r: Result<Self, AgentError>)
        ensures
            match r {
                Ok(id) => stored_seed_fault(text@) is None && b64_decode(text@, false, true)
                    == Some(id@),
                Err(e) => match stored_seed_fault(text@) {
                    Some(Some(m)) => e@ == AgentFault::Config(m),
                    Some(None) => exists|m: Seq<char>| e@ == AgentFault::Config(
                        "identity seed is not valid base64: "@ + m,
                    ),
                    None => false,
                },
            },
    {
        let bytes = match decode_standard(text) {
            Ok(b) => b,
            Err(m) => {
                return Err(
                    AgentError::Config(concat("identity seed is not valid base64: ", m.as_str())),
                );
            },
        };
        if bytes.len() != SEED_LEN {
            return Err(AgentError::Config("identity seed is not 32 bytes".to_owned()));
        }
        let mut seed: [u8; 32] = [0u8; 32];
        let mut i: usize = 0;
        while i < SEED_LEN
            invariant
                i <= SEED_LEN,
                bytes@.len() == SEED_LEN,
                seed@.len() == SEED_LEN,
                forall|j: int| 0 <= j < i ==> seed@[j] == bytes@[j],
            decreases SEED_LEN - i,
        {
            seed[i] = bytes[i];
            i = i + 1;
        }
        assert(seed@ =~= bytes@);
        Ok(DeviceIdentity { seed })
    }
}

proof fn lemma_hex_text_len(b: Seq<u8>)
    ensures
        hex_text(b).len() == 2 * b.len(),
    decreases b.len(),
{
    if b.len() > 0 {
        lemma_hex_text_len(b.drop_last());
    }
}

/// Reading back the stored form of an identity gives the same identity:
/// the padded standard base64 of a 32-byte seed decodes, without fault, to
/// that seed.
pub proof fn lemma_stored_seed_round_trip(seed: Seq<u8>)
    requires
        seed.len() == 32,
    ensures
        b64_decode(b64_encode(seed, false, true), false, true) == Some(seed),
        stored_seed_fault(b64_encode(seed, false, true)) is None,
{
    lemma_b64_round_trip(seed, false, true);
}

} // verus!
