//! Exact construction of the canonical signing payload: the JSON document
//! `{"id":<id>,"worker":<worker>,"output":<number>}` over the result's
//! correlation token, worker name and numeric output — deliberately
//! excluding the result's `kind` and `payload` metadata.
//!
//! String contents are escaped byte for byte as the JSON serializer on the
//! other end of the wire does: `"` and `\` get a backslash escape, the
//! control bytes 0x08, 0x09, 0x0a, 0x0c and 0x0d get their short forms, any
//! other byte below 0x20 becomes `\u00` plus two lowercase hex digits, and
//! every remaining byte (including UTF-8 continuation bytes) passes through
//! unchanged.
use vstd::prelude::*;

use vstd::string::StringSliceAdditionalSpecFns;
use vstd::utf8::encode_utf8;

verus! {

/// The lowercase hex digit (as an ASCII byte) of a value below 16.
pub open spec fn spec_hex_digit(n: u8) -> u8 {
    if n < 10 {
        (0x30 + n) as u8
    } else {
        (0x57 + n) as u8
    }
}

/// The JSON escape of one byte of UTF-8 encoded string content.
pub open spec fn spec_escape_byte(b: u8) -> Seq<u8> {
    if b == 0x22 {
        seq![0x5cu8, 0x22u8]
    } else if b == 0x5c {
        seq![0x5cu8, 0x5cu8]
    } else if b == 0x08 {
        seq![0x5cu8, 0x62u8]
    } else if b == 0x09 {
        seq![0x5cu8, 0x74u8]
    } else if b == 0x0a {
        seq![0x5cu8, 0x6eu8]
    } else if b == 0x0c {
        seq![0x5cu8, 0x66u8]
    } else if b == 0x0d {
        seq![0x5cu8, 0x72u8]
    } else if b < 0x20 {
        seq![0x5cu8, 0x75u8, 0x30u8, 0x30u8, spec_hex_digit(b >> 4), spec_hex_digit(b & 0x0f)]
    } else {
        seq![b]
    }
}

/// The JSON escape of a whole byte string, escaped byte by byte.
pub open spec fn spec_escape_bytes(s: Seq<u8>) -> Seq<u8>
    decreases s.len(),
{
    if s.len() == 0 {
        Seq::empty()
    } else {
        spec_escape_bytes(s.drop_last()) + spec_escape_byte(s.last())
    }
}

/// The canonical signing payload over an id, a worker name and the JSON
/// text of the numeric output: the UTF-8 bytes of
/// `{"id":"<id>","worker":"<worker>","output":<number>}` with both strings
/// escaped.
pub open spec fn spec_canonical(id: Seq<char>, worker: Seq<char>, number: Seq<u8>) -> Seq<u8> {
    encode_utf8("{\"id\":\""@) + spec_escape_bytes(encode_utf8(id)) + encode_utf8(
        "\",\"worker\":\""@,
    ) + spec_escape_bytes(encode_utf8(worker)) + encode_utf8("\",\"output\":"@) + number
        + encode_utf8("}"@)
}

/// The lowercase hex digit of a value below 16.
fn hex_digit(n: u8) -> (r: u8)
    requires
        n < 16,
    ensures
        r == spec_hex_digit(n),
{
    if n < 10 {
        0x30 + n
    } else {
        0x57 + n
    }
}

/// Appends the JSON escape of one content byte.
fn push_escaped_byte(out: &mut Vec<u8>, b: u8)
    ensures
        final(out)@ == old(out)@ + spec_escape_byte(b),
{
    if b == 0x22 {
        out.push(0x5c);
        out.push(0x22);
    } else if b == 0x5c {
        out.push(0x5c);
        out.push(0x5c);
    } else if b == 0x08 {
        out.push(0x5c);
        out.push(0x62);
    } else if b == 0x09 {
        out.push(0x5c);
        out.push(0x74);
    } else if b == 0x0a {
        out.push(0x5c);
        out.push(0x6e);
    } else if b == 0x0c {
        out.push(0x5c);
        out.push(0x66);
    } else if b == 0x0d {
        out.push(0x5c);
        out.push(0x72);
    } else if b < 0x20 {
        out.push(0x5c);
        out.push(0x75);
        out.push(0x30);
        out.push(0x30);
        proof {
            assert(b >> 4 < 16 && b & 0x0f < 16) by (bit_vector);
        }
        out.push(hex_digit(b >> 4));
        out.push(hex_digit(b & 0x0f));
    } else {
        out.push(b);
    }
    proof {
        assert(out@ =~= old(out)@ + spec_escape_byte(b));
    }
}

/// Escapes a UTF-8 byte string for inclusion between the quotes of a JSON
/// string literal.
pub fn escape_json_bytes(s: &[u8]) -> (r: Vec<u8>)
    ensures
        r@ == spec_escape_bytes(s@),
{
    let mut out: Vec<u8> = Vec::new();
    let mut j: usize = 0;
    while j < s.len()
        invariant
            j <= s.len(),
            out@ == spec_escape_bytes(s@.take(j as int)),
        decreases s.len() - j,
    {
        proof {
            assert(s@.take(j + 1).drop_last() =~= s@.take(j as int));
            assert(s@.take(j + 1).last() == s@[j as int]);
        }
        push_escaped_byte(&mut out, s[j]);
        j = j + 1;
    }
    proof {
        assert(s@.take(s@.len() as int) =~= s@);
    }
    out
}

/// A JSON string literal: the content escaped, between double quotes.
pub open spec fn spec_json_string(s: Seq<char>) -> Seq<u8> {
    encode_utf8("\""@) + spec_escape_bytes(encode_utf8(s)) + encode_utf8("\""@)
}

/// Appends a JSON string literal holding `s`.
pub(crate) fn push_json_string(out: &mut Vec<u8>, s: &str)
    ensures
        final(out)@ == old(out)@ + spec_json_string(s@),
{
    out.extend_from_slice("\"".as_bytes());
    let escaped = escape_json_bytes(s.as_bytes());
    out.extend_from_slice(escaped.as_slice());
    out.extend_from_slice("\"".as_bytes());
    proof {
        assert(out@ =~= old(out)@ + spec_json_string(s@));
    }
}

/// Builds the canonical signing payload for a result. `number` must be the
/// JSON text of the result's numeric output, as rendered by the process
/// boundary; the rest of the document is constructed and escaped here,
/// byte-exactly as `spec_canonical` states.
pub fn canonical_signing_payload(id: &str, worker: &str, number: &Vec<u8>) -> (r: Vec<u8>)
    ensures
        r@ == spec_canonical(id@, worker@, number@),
{
    let mut out: Vec<u8> = Vec::new();
    out.extend_from_slice("{\"id\":\"".as_bytes());
    let escaped_id = escape_json_bytes(id.as_bytes());
    out.extend_from_slice(escaped_id.as_slice());
    out.extend_from_slice("\",\"worker\":\"".as_bytes());
    let escaped_worker = escape_json_bytes(worker.as_bytes());
    out.extend_from_slice(escaped_worker.as_slice());
    out.extend_from_slice("\",\"output\":".as_bytes());
    out.extend_from_slice(number.as_slice());
    out.extend_from_slice("}".as_bytes());
    proof {
        assert(out@ =~= spec_canonical(id@, worker@, number@));
    }
    out
}

} // verus!
