//! Encodings of byte strings as text, as used for request signatures.
use vstd::prelude::*;

verus! {

/// The lowercase hexadecimal digit of `n` (`0 <= n < 16`).
pub open spec fn hex_digit(n: u8) -> char {
    seq!['0', '1', '2', '3', '4', '5', '6', '7', '8', '9', 'a', 'b', 'c', 'd', 'e', 'f'][n as int]
}

/// Lowercase hexadecimal text of `data`: two digits per byte, high nibble first.
pub open spec fn hex_lower(data: Seq<u8>) -> Seq<char>
    decreases data.len(),
{
    if data.len() == 0 {
        Seq::empty()
    } else {
        let b = data.last();
        hex_lower(data.drop_last()).push(hex_digit(b / 16)).push(hex_digit(b % 16))
    }
}

/// Relies on `hex::encode`: each byte as two lowercase hexadecimal digits, high nibble
/// first, in the order of the bytes.
#[verifier::external_body]
fn hex_encode(data: &[u8]) -> (r: String)
    ensures
        r@ == hex_lower(data@),
{
    hex::encode(data)
}

/// Encodes bytes as text.
pub trait Encoder {
    spec fn spec_encode(data: Seq<u8>) -> Seq<char>;

    fn encode(&self, data: &[u8]) -> (r: String)
        ensures
            r@ == Self::spec_encode(data@),
    ;
}

/// Encodes bytes as lowercase hexadecimal text.
#[derive(Clone, Copy, Debug, PartialEq, Eq)]
pub struct HexEncoder;

impl Encoder for HexEncoder {
    open spec fn spec_encode(data: Seq<u8>) -> Seq<char> {
        hex_lower(data)
    }

    fn encode(&self, data: &[u8]) -> (r: String) {
        hex_encode(data)
    }
}

} // verus!
