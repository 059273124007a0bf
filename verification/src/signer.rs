//! Upload signing: the time-bound credential for the external asset host is
//! authorized by a SHA-1 digest over an exact byte string, hex-encoded in
//! lowercase. The field order and literal separators are part of the host's
//! contract and must match byte for byte.

use crate::text::push_char;
use sha1::{Digest, Sha1};
use vstd::prelude::*;

verus! {

/// The SHA-1 digest (20 bytes) of the UTF-8 encoding of the given
/// characters. Only named here: the algorithm itself lives in the outside
/// crate and depends on nothing but its input.
pub uninterp spec fn sha1_of(msg: Seq<char>) -> Seq<u8>;

/// Relies on `sha1::Sha1` (driven through the `Digest` trait): the digest is
/// a function of the input bytes alone and is 160 bits, that is 20 bytes.
#[verifier::external_body]
pub(crate) fn sha1_digest(msg: &str) -> (r: Vec<u8>)
    ensures
        r@ == sha1_of(msg@),
        r@.len() == 20,
{
    Sha1::digest(msg.as_bytes()).to_vec()
}

/// The lowercase hexadecimal digit for a nibble.
pub open spec fn hex_digit(d: nat) -> char
    recommends
        d < 16,
{
    if d < 10 {
        ((d + ('0' as nat)) as u8) as char
    } else {
        ((d - 10 + ('a' as nat)) as u8) as char
    }
}

/// Lowercase hex encoding: two digits per byte, high nibble first.
pub open spec fn hex_spec(bytes: Seq<u8>) -> Seq<char>
    decreases bytes.len(),
{
    if bytes.len() == 0 {
        Seq::empty()
    } else {
        hex_spec(bytes.drop_last()).push(hex_digit((bytes.last() / 16) as nat)).push(
            hex_digit((bytes.last() % 16) as nat),
        )
    }
}

/// The lowercase hex digit character for one nibble.
fn nibble_char(d: u8) -> (c: char)
    requires
        d < 16,
    ensures
        c == hex_digit(d as nat),
{
    if d < 10 {
        (d + 48) as char
    } else {
        (d - 10 + 97) as char
    }
}

/// Hex-encodes a byte string in lowercase, exactly as `hex_spec` describes.
pub fn hex_lower(bytes: &Vec<u8>) -> (r: String)
    ensures
        r@ == hex_spec(bytes@),
{
    let mut r = String::new();
    let mut i: usize = 0;
    while i < bytes.len()
        invariant
            i <= bytes.len(),
            r@ =~= hex_spec(bytes@.take(i as int)),
        decreases bytes.len() - i,
    {
        let b = bytes[i];
        push_char(&mut r, nibble_char(b / 16));
        push_char(&mut r, nibble_char(b % 16));
        proof {
            let pre = bytes@.take(i as int);
            let now = bytes@.take(i as int + 1);
            assert(now.drop_last() =~= pre);
            assert(now.last() == bytes@[i as int]);
        }
        i = i + 1;
    }
    proof {
        assert(bytes@.take(bytes@.len() as int) =~= bytes@);
    }
    r
}

/// Hex encoding writes exactly two digits per byte.
pub proof fn lemma_hex_spec_len(bytes: Seq<u8>)
    ensures
        hex_spec(bytes).len() == 2 * bytes.len(),
    decreases bytes.len(),
{
    if bytes.len() > 0 {
        lemma_hex_spec_len(bytes.drop_last());
    }
}

/// The exact character string the signature is computed over:
/// `"public_id=" + publicId + "&timestamp=" + timestampSeconds + secret`,
/// with no separators beyond those literals and the secret appended raw.
pub open spec fn signing_payload(public_id: Seq<char>, ts: Seq<char>, secret: Seq<char>) -> Seq<
    char,
> {
    "public_id="@ + public_id + "&timestamp="@ + ts + secret
}

/// Computes the upload signature: the lowercase hex encoding of the SHA-1
/// digest of the signing payload. Pure and deterministic: equal inputs give
/// equal signatures.
pub fn sign(public_id: &str, timestamp: &str, secret: &str) -> (r: String)
    ensures
        r@ == hex_spec(sha1_of(signing_payload(public_id@, timestamp@, secret@))),
        r@.len() == 40,
{
    let mut payload: String = "public_id=".to_owned();
    payload.append(public_id);
    payload.append("&timestamp=");
    payload.append(timestamp);
    payload.append(secret);
    proof {
        assert(payload@ =~= signing_payload(public_id@, timestamp@, secret@));
    }
    let digest = sha1_digest(payload.as_str());
    proof {
        lemma_hex_spec_len(digest@);
    }
    hex_lower(&digest)
}

} // verus!
