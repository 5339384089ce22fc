//! Base64 transport encoding of signatures and public keys, with the
//! standard alphabet and `=` padding, specified exactly.
use base64::Engine;
use vstd::prelude::*;

verus! {

/// The standard-alphabet base64 character of a 6-bit value.
pub open spec fn spec_b64_char(v: u8) -> char {
    if v < 26 {
        ((0x41 + v) as u8) as char  // 'A'..='Z'
    } else if v < 52 {
        ((0x47 + v) as u8) as char  // 'a'..='z'
    } else if v < 62 {
        ((v - 52 + 0x30) as u8) as char  // '0'..='9'
    } else if v == 62 {
        '+'
    } else {
        '/'
    }
}

/// Standard base64 of a byte string: three bytes at a time become four
/// alphabet characters; a trailing group of one or two bytes is padded
/// with `=` to a full group of four.
pub open spec fn spec_base64(s: Seq<u8>) -> Seq<char>
    decreases s.len(),
{
    if s.len() == 0 {
        Seq::empty()
    } else if s.len() == 1 {
        let b0 = s[0];
        seq![spec_b64_char(b0 >> 2), spec_b64_char((b0 & 0x03) << 4), '=', '=']
    } else if s.len() == 2 {
        let b0 = s[0];
        let b1 = s[1];
        seq![
            spec_b64_char(b0 >> 2),
            spec_b64_char(((b0 & 0x03) << 4) | (b1 >> 4)),
            spec_b64_char((b1 & 0x0f) << 2),
            '=',
        ]
    } else {
        let b0 = s[0];
        let b1 = s[1];
        let b2 = s[2];
        seq![
            spec_b64_char(b0 >> 2),
            spec_b64_char(((b0 & 0x03) << 4) | (b1 >> 4)),
            spec_b64_char(((b1 & 0x0f) << 2) | (b2 >> 6)),
            spec_b64_char(b2 & 0x3f),
        ] + spec_base64(s.skip(3))
    }
}

/// Relies on `Engine::encode` of the base64 crate with the
/// `general_purpose::STANDARD` engine: base64 with the standard alphabet
/// and `=` padding, exactly as `spec_base64` states.
#[verifier::external_body]
fn base64_encode_raw(bytes: &[u8]) -> (r: String)
    ensures
        r@ == spec_base64(bytes@),
{
    base64::engine::general_purpose::STANDARD.encode(bytes)
}

/// The base64 transport encoding of a byte string.
pub fn base64_of(bytes: &Vec<u8>) -> (r: String)
    ensures
        r@ == spec_base64(bytes@),
{
    base64_encode_raw(bytes.as_slice())
}

} // verus!
