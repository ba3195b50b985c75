//! Keyed, one-way pseudonyms for identifiers: the lower-case hex form of an
//! HMAC-SHA-256 tag of the identifier under an operator-supplied seed.
use vstd::prelude::*;
use hmac::Mac;
use crate::error::TranscodeError;

verus! {

#[verifier::external_type_specification]
#[verifier::external_body]
pub struct ExInvalidLength(hmac::digest::InvalidLength);

/// The HMAC-SHA-256 tag of the UTF-8 bytes of `msg` under the UTF-8 bytes of `key`.
pub uninterp spec fn hmac_sha256(key: Seq<char>, msg: Seq<char>) -> Seq<u8>;

/// The lower-case hexadecimal digit for `n < 16`.
pub open spec fn hex_digit(n: u8) -> char {
    seq!['0', '1', '2', '3', '4', '5', '6', '7', '8', '9', 'a', 'b', 'c', 'd', 'e', 'f'][n as int]
}

/// Two lower-case hex digits per byte, the high nibble first.
pub open spec fn hex_of(b: Seq<u8>) -> Seq<char>
    decreases b.len(),
{
    if b.len() == 0 {
        Seq::empty()
    } else {
        hex_of(b.drop_last()) + seq![hex_digit(b.last() / 16), hex_digit(b.last() % 16)]
    }
}

/// The pseudonym of `identifier` under `seed`.
pub open spec fn pseudonym(seed: Seq<char>, identifier: Seq<char>) -> Seq<char> {
    hex_of(hmac_sha256(seed, identifier))
}

/// Relies on `hmac::Hmac<sha2::Sha256>`: `new_from_slice` takes the key
/// bytes (in hmac 0.12 it accepts every key length and returns `Ok`), and
/// `update` then `finalize` give the 32-byte tag of the message bytes.
#[verifier::external_body]
fn hmac_sha256_tag(key: &str, msg: &str) -> (r: Result<Vec<u8>, hmac::digest::InvalidLength>)
    ensures
        r is Ok,
        r matches Ok(t) ==> t@ == hmac_sha256(key@, msg@) && t@.len() == 32,
{
    let mut mac = hmac::Hmac::<sha2::Sha256>::new_from_slice(key.as_bytes())?;
    mac.update(msg.as_bytes());
    Ok(mac.finalize().into_bytes().to_vec())
}

/// Relies on `hex::encode`: two lower-case hex digits per byte, high nibble first.
#[verifier::external_body]
fn hex_encode(b: &[u8]) -> (r: String)
    ensures
        r@ == hex_of(b@),
{
    hex::encode(b)
}

/// The pseudonym of `identifier` under `seed`; the seed must not be empty.
pub fn pseudonymize(seed: &str, identifier: &str) -> (r: Result<String, TranscodeError>)
    ensures
        seed@.len() == 0 ==> r == Err::<String, TranscodeError>(TranscodeError::MissingSeed),
        seed@.len() > 0 ==> (r matches Ok(h) && h@ == pseudonym(seed@, identifier@)),
{
    if seed.is_empty() {
        return Err(TranscodeError::MissingSeed);
    }
    match hmac_sha256_tag(seed, identifier) {
        Ok(tag) => Ok(hex_encode(tag.as_slice())),
        Err(_) => Err(TranscodeError::HashInitFailed),
    }
}

} // verus!
