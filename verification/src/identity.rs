//! The identifier under which the device is known to the service.

use sha1::Digest;
use sha1::Sha1;
use vstd::prelude::*;

verus! {

/// The SHA-1 digest of a run of bytes.
pub uninterp spec fn sha1_of(data: Seq<u8>) -> Seq<u8>;

/// The digit that stands for a value below sixteen, in lower case.
pub open spec fn hex_digit(nibble: int) -> char {
    seq!['0', '1', '2', '3', '4', '5', '6', '7', '8', '9', 'a', 'b', 'c', 'd', 'e', 'f'][nibble]
}

/// The bytes written as hexadecimal digits in lower case, two for each
/// byte, the high half first.
pub open spec fn hex_lower(data: Seq<u8>) -> Seq<char> {
    Seq::new(
        2 * data.len(),
        |i: int|
            if i % 2 == 0 {
                hex_digit(data[i / 2] as int / 16)
            } else {
                hex_digit(data[i / 2] as int % 16)
            },
    )
}

/// Calls `Sha1::digest` of the `sha1` crate. The digest is not spelled out
/// here: it is named `sha1_of`.
#[verifier::external_body]
fn sha1_digest(data: &[u8]) -> (digest: Vec<u8>)
    ensures
        digest@ == sha1_of(data@),
{
    Sha1::digest(data).to_vec()
}

/// Calls `hex::encode`: every byte becomes its two hexadecimal digits in
/// lower case.
#[verifier::external_body]
fn hex_encode(data: &[u8]) -> (text: String)
    ensures
        text@ == hex_lower(data@),
{
    hex::encode(data)
}

/// A digest written out as text: its bytes in lower-case hexadecimal.
pub fn digest_text(digest: &Vec<u8>) -> (text: String)
    ensures
        text@ == hex_lower(digest@),
        text@.len() == 2 * digest@.len(),
{
    hex_encode(digest.as_slice())
}

/// The device identifier that belongs to a device name: the SHA-1 digest of
/// the name's bytes in lower-case hexadecimal.
pub fn device_id(name: &str) -> (id: String)
    ensures
        id@ == hex_lower(sha1_of(vstd::utf8::encode_utf8(name@))),
{
    let digest = sha1_digest(name.as_bytes());
    digest_text(&digest)
}

} // verus!
