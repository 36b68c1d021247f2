//! Payload signing: an HMAC with a 256-bit digest over the serialized JSON
//! body, encoded as lowercase hexadecimal and prefixed with `"sha256="`.

use vstd::prelude::*;
use vstd::string::StrSliceExecFns;
use vstd::string::StringExecFns;
use vstd::string::StringSliceAdditionalSpecFns;
use hmac::Mac;

verus! {

/// The digest that HMAC-SHA-256 computes for a key and a message. The digest
/// is a pure function of the two byte sequences alone, so it is given a name
/// here rather than a definition; `hmac_sha256` below ties the name to the
/// outside implementation.
pub uninterp spec fn hmac_sha256_digest(key: Seq<u8>, msg: Seq<u8>) -> Seq<u8>;

/// The lowercase hexadecimal digit for the low four bits of `n`.
pub open spec fn hex_digit(n: u8) -> char {
    if n == 0 {
        '0'
    } else if n == 1 {
        '1'
    } else if n == 2 {
        '2'
    } else if n == 3 {
        '3'
    } else if n == 4 {
        '4'
    } else if n == 5 {
        '5'
    } else if n == 6 {
        '6'
    } else if n == 7 {
        '7'
    } else if n == 8 {
        '8'
    } else if n == 9 {
        '9'
    } else if n == 10 {
        'a'
    } else if n == 11 {
        'b'
    } else if n == 12 {
        'c'
    } else if n == 13 {
        'd'
    } else if n == 14 {
        'e'
    } else {
        'f'
    }
}

/// Lowercase hexadecimal text for a byte sequence: two digits per byte, the
/// high nibble first.
pub open spec fn hex_encoding(bytes: Seq<u8>) -> Seq<char> {
    Seq::new(
        2 * bytes.len(),
        |i: int|
            if i % 2 == 0 {
                hex_digit(bytes[i / 2] >> 4)
            } else {
                hex_digit(bytes[i / 2] & 0xf)
            },
    )
}

/// A character drawn from the lowercase hexadecimal alphabet.
pub open spec fn is_lower_hex(c: char) -> bool {
    ('0' <= c && c <= '9') || ('a' <= c && c <= 'f')
}

/// Every character of a hexadecimal encoding is a lowercase hex digit.
pub proof fn lemma_hex_encoding_chars(bytes: Seq<u8>)
    ensures
        hex_encoding(bytes).len() == 2 * bytes.len(),
        forall|i: int|
            0 <= i < hex_encoding(bytes).len() ==> is_lower_hex(#[trigger] hex_encoding(bytes)[i]),
{
}

/// The signature text for a key and a message: the algorithm tag, then the
/// lowercase hex digest.
pub open spec fn spec_signature(key: Seq<u8>, msg: Seq<u8>) -> Seq<char> {
    "sha256="@ + hex_encoding(hmac_sha256_digest(key, msg))
}

/// Relies on `hmac::Hmac<sha2::Sha256>` (`new_from_slice`, `update`,
/// `finalize`) to compute the HMAC-SHA-256 digest of `msg` under `key`. The
/// digest depends on the two byte strings alone and is 32 bytes long;
/// `new_from_slice` accepts a key of any length, so the call cannot fail.
#[verifier::external_body]
fn hmac_sha256(key: &[u8], msg: &[u8]) -> (r: Vec<u8>)
    ensures
        r@ == hmac_sha256_digest(key@, msg@),
        r@.len() == 32,
{
    let mut mac = hmac::Hmac::<sha2::Sha256>::new_from_slice(key)
        .expect("HMAC can take key of any size");
    mac.update(msg);
    mac.finalize().into_bytes().to_vec()
}

/// Relies on `hex::encode`: each byte becomes two lowercase hexadecimal
/// digits, high nibble first.
#[verifier::external_body]
fn hex_encode(bytes: &[u8]) -> (r: String)
    ensures
        r@ == hex_encoding(bytes@),
{
    hex::encode(bytes)
}

/// Signs a serialized payload: computes HMAC-SHA-256 of `payload_json` under
/// `secret` and returns the digest as lowercase hex behind the `"sha256="`
/// algorithm tag. The result is a pure function of the secret and the body:
/// repeated calls on equal inputs return equal text.
pub fn sign_payload(secret: &str, payload_json: &str) -> (r: String)
    ensures
        r@ == spec_signature(secret.spec_bytes(), payload_json.spec_bytes()),
        r@.len() == 71,
        forall|i: int| 7 <= i < 71 ==> is_lower_hex(#[trigger] r@[i]),
        r@.subrange(0, 7) == "sha256="@,
{
    let digest = hmac_sha256(secret.as_bytes(), payload_json.as_bytes());
    let hex_text = hex_encode(digest.as_slice());
    let mut out = String::new();
    out.append("sha256=");
    out.append(hex_text.as_str());
    proof {
        reveal_strlit("sha256=");
        assert(out@ =~= spec_signature(secret.spec_bytes(), payload_json.spec_bytes()));
        assert(out@.subrange(0, 7) =~= "sha256="@);
        lemma_hex_encoding_chars(digest@);
        assert forall|i: int| 7 <= i < 71 implies is_lower_hex(#[trigger] out@[i]) by {
            assert(out@[i] == hex_encoding(digest@)[i - 7]);
        }
    }
    out
}

/// The signature for a fixed secret and a fixed body is deterministic: any
/// two signatures of the same key and message are the same text.
pub proof fn lemma_signature_deterministic(key: Seq<u8>, msg: Seq<u8>, r1: Seq<char>, r2: Seq<char>)
    requires
        r1 == spec_signature(key, msg),
        r2 == spec_signature(key, msg),
    ensures
        r1 == r2,
{
}

} // verus!
