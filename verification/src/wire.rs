//! Exact construction of the remaining wire documents: the metadata
//! object attached to a result, the body of a result submission, and the
//! payload published on the gossip topic.
//!
//! Every document is built byte for byte as the JSON serializer on the
//! other end of the wire renders it: object keys of map-built documents
//! come in alphabetical order, struct-shaped documents keep field order,
//! and absent optional fields are omitted. The text of each 64-bit float
//! is supplied by the process boundary; everything else, including the
//! decimal text of the integers, is rendered and verified here.
use vstd::prelude::*;

use crate::json::{push_json_string, spec_json_string};
use crate::task::{Metadata, ResultData};
use vstd::string::StringSliceAdditionalSpecFns;
use vstd::utf8::encode_utf8;

verus! {

/// The decimal text of an unsigned integer, most significant digit first.
pub open spec fn spec_decimal(n: u64) -> Seq<u8>
    decreases n,
{
    if n < 10 {
        seq![(0x30 + n) as u8]
    } else {
        spec_decimal(n / 10) + seq![(0x30 + n % 10) as u8]
    }
}

/// Appends the decimal text of `n`.
fn push_decimal(out: &mut Vec<u8>, n: u64)
    ensures
        final(out)@ == old(out)@ + spec_decimal(n),
    decreases n,
{
    if n < 10 {
        out.push(0x30 + (n as u8));
        proof {
            assert(out@ =~= old(out)@ + spec_decimal(n));
        }
    } else {
        push_decimal(out, n / 10);
        out.push(0x30 + ((n % 10) as u8));
        proof {
            assert(out@ =~= old(out)@ + spec_decimal(n));
        }
    }
}

/// The JSON object a result's metadata serializes to, given the JSON
/// texts of the three float statistics (used only by the vector
/// statistics). Keys come in alphabetical order, as the map serializer
/// renders them.
pub open spec fn spec_metadata_json(
    meta: Metadata,
    min_json: Seq<u8>,
    max_json: Seq<u8>,
    average_json: Seq<u8>,
) -> Seq<u8> {
    match meta {
        Metadata::FactorialN { n } => encode_utf8("{\"n\":"@) + spec_decimal(n) + encode_utf8(
            "}"@,
        ),
        Metadata::VectorStats { count, min: _, max: _, average: _ } => encode_utf8(
            "{\"average\":"@,
        ) + average_json + encode_utf8(",\"count\":"@) + spec_decimal(count) + encode_utf8(
            ",\"max\":"@,
        ) + max_json + encode_utf8(",\"min\":"@) + min_json + encode_utf8("}"@),
        Metadata::MeanCount { count } => encode_utf8("{\"count\":"@) + spec_decimal(count)
            + encode_utf8("}"@),
        Metadata::Warning { which } => {
            let message = if which is VectorSumMissingValues {
                "vector_sum payload missing"@
            } else if which is VectorSumNoNumericValues {
                "vector_sum payload missing numeric values"@
            } else if which is MeanMissingValues {
                "mean payload missing"@
            } else {
                "mean payload missing numeric values"@
            };
            encode_utf8("{\"warning\":"@) + spec_json_string(message) + encode_utf8("}"@)
        },
    }
}

/// Renders a result's metadata as its wire JSON object. The three float
/// texts must be the boundary's JSON renderings of the vector statistics'
/// bit patterns; they are read only for vector statistics.
pub fn metadata_json(
    meta: &Metadata,
    min_json: &Vec<u8>,
    max_json: &Vec<u8>,
    average_json: &Vec<u8>,
) -> (r: Vec<u8>)
    ensures
        r@ == spec_metadata_json(*meta, min_json@, max_json@, average_json@),
{
    let mut out: Vec<u8> = Vec::new();
    match meta {
        Metadata::FactorialN { n } => {
            out.extend_from_slice("{\"n\":".as_bytes());
            push_decimal(&mut out, *n);
            out.extend_from_slice("}".as_bytes());
        },
        Metadata::VectorStats { count, min: _, max: _, average: _ } => {
            out.extend_from_slice("{\"average\":".as_bytes());
            out.extend_from_slice(average_json.as_slice());
            out.extend_from_slice(",\"count\":".as_bytes());
            push_decimal(&mut out, *count);
            out.extend_from_slice(",\"max\":".as_bytes());
            out.extend_from_slice(max_json.as_slice());
            out.extend_from_slice(",\"min\":".as_bytes());
            out.extend_from_slice(min_json.as_slice());
            out.extend_from_slice("}".as_bytes());
        },
        Metadata::MeanCount { count } => {
            out.extend_from_slice("{\"count\":".as_bytes());
            push_decimal(&mut out, *count);
            out.extend_from_slice("}".as_bytes());
        },
        Metadata::Warning { which } => {
            out.extend_from_slice("{\"warning\":".as_bytes());
            let message = which.message();
            push_json_string(&mut out, message.as_str());
            out.extend_from_slice("}".as_bytes());
        },
    }
    proof {
        assert(out@ =~= spec_metadata_json(*meta, min_json@, max_json@, average_json@));
    }
    out
}

/// The body of a result submission: the JSON document over id, kind (if
/// any), output, payload (if any), public key, signature and worker —
/// keys in the alphabetical order the coordinator wire format uses.
pub open spec fn spec_submit_body(
    id: Seq<char>,
    kind: Option<Seq<char>>,
    output_json: Seq<u8>,
    payload_json: Option<Seq<u8>>,
    pk_b64: Seq<char>,
    sig_b64: Seq<char>,
    worker: Seq<char>,
) -> Seq<u8> {
    encode_utf8("{\"id\":"@) + spec_json_string(id) + (match kind {
        Some(k) => encode_utf8(",\"kind\":"@) + spec_json_string(k),
        None => Seq::empty(),
    }) + encode_utf8(",\"output\":"@) + output_json + (match payload_json {
        Some(p) => encode_utf8(",\"payload\":"@) + p,
        None => Seq::empty(),
    }) + encode_utf8(",\"pub_key\":"@) + spec_json_string(pk_b64) + encode_utf8(
        ",\"signature\":"@,
    ) + spec_json_string(sig_b64) + encode_utf8(",\"worker\":"@) + spec_json_string(worker)
        + encode_utf8("}"@)
}

/// Builds the submission body for a result. `output_json` must be the
/// boundary's JSON text of the result's output, and `payload_json` the
/// rendered metadata object (absent exactly when the result carries
/// none).
#[verifier::rlimit(50)]
pub fn submit_body(
    result: &ResultData,
    output_json: &Vec<u8>,
    payload_json: &Option<Vec<u8>>,
    pk_b64: &str,
    sig_b64: &str,
) -> (r: Vec<u8>)
    requires
        (result.payload is Some) <==> (payload_json is Some),
    ensures
        r@ == spec_submit_body(
            result.id@,
            match result.kind {
                Some(k) => Some(k@),
                None => None,
            },
            output_json@,
            match *payload_json {
                Some(p) => Some(p@),
                None => None,
            },
            pk_b64@,
            sig_b64@,
            result.worker@,
        ),
{
    let mut out: Vec<u8> = Vec::new();
    out.extend_from_slice("{\"id\":".as_bytes());
    push_json_string(&mut out, result.id.as_str());
    match &result.kind {
        Some(kind) => {
            out.extend_from_slice(",\"kind\":".as_bytes());
            push_json_string(&mut out, kind.as_str());
        },
        None => {},
    }
    out.extend_from_slice(",\"output\":".as_bytes());
    out.extend_from_slice(output_json.as_slice());
    match payload_json {
        Some(payload) => {
            out.extend_from_slice(",\"payload\":".as_bytes());
            out.extend_from_slice(payload.as_slice());
        },
        None => {},
    }
    out.extend_from_slice(",\"pub_key\":".as_bytes());
    push_json_string(&mut out, pk_b64);
    out.extend_from_slice(",\"signature\":".as_bytes());
    push_json_string(&mut out, sig_b64);
    out.extend_from_slice(",\"worker\":".as_bytes());
    push_json_string(&mut out, result.worker.as_str());
    out.extend_from_slice("}".as_bytes());
    proof {
        assert(out@ =~= spec_submit_body(
            result.id@,
            match result.kind {
                Some(k) => Some(k@),
                None => None::<Seq<char>>,
            },
            output_json@,
            match *payload_json {
                Some(p) => Some(p@),
                None => None::<Seq<u8>>,
            },
            pk_b64@,
            sig_b64@,
            result.worker@,
        ));
    }
    out
}

/// The payload published on the gossip topic: the serialized pair of the
/// result (struct field order: id, worker, output, then kind and payload
/// when present) and the signature's base64 text.
pub open spec fn spec_gossip_payload(
    id: Seq<char>,
    worker: Seq<char>,
    output_json: Seq<u8>,
    kind: Option<Seq<char>>,
    payload_json: Option<Seq<u8>>,
    sig_b64: Seq<char>,
) -> Seq<u8> {
    encode_utf8("[{\"id\":"@) + spec_json_string(id) + encode_utf8(",\"worker\":"@)
        + spec_json_string(worker) + encode_utf8(",\"output\":"@) + output_json + (match kind {
        Some(k) => encode_utf8(",\"kind\":"@) + spec_json_string(k),
        None => Seq::empty(),
    }) + (match payload_json {
        Some(p) => encode_utf8(",\"payload\":"@) + p,
        None => Seq::empty(),
    }) + encode_utf8("},"@) + spec_json_string(sig_b64) + encode_utf8("]"@)
}

/// Builds the gossip payload for a signed result, exactly as
/// `spec_gossip_payload` states.
#[verifier::rlimit(50)]
pub fn gossip_payload(
    result: &ResultData,
    output_json: &Vec<u8>,
    payload_json: &Option<Vec<u8>>,
    sig_b64: &str,
) -> (r: Vec<u8>)
    requires
        (result.payload is Some) <==> (payload_json is Some),
    ensures
        r@ == spec_gossip_payload(
            result.id@,
            result.worker@,
            output_json@,
            match result.kind {
                Some(k) => Some(k@),
                None => None,
            },
            match *payload_json {
                Some(p) => Some(p@),
                None => None,
            },
            sig_b64@,
        ),
{
    let mut out: Vec<u8> = Vec::new();
    out.extend_from_slice("[{\"id\":".as_bytes());
    push_json_string(&mut out, result.id.as_str());
    out.extend_from_slice(",\"worker\":".as_bytes());
    push_json_string(&mut out, result.worker.as_str());
    out.extend_from_slice(",\"output\":".as_bytes());
    out.extend_from_slice(output_json.as_slice());
    match &result.kind {
        Some(kind) => {
            out.extend_from_slice(",\"kind\":".as_bytes());
            push_json_string(&mut out, kind.as_str());
        },
        None => {},
    }
    match payload_json {
        Some(payload) => {
            out.extend_from_slice(",\"payload\":".as_bytes());
            out.extend_from_slice(payload.as_slice());
        },
        None => {},
    }
    out.extend_from_slice("},".as_bytes());
    push_json_string(&mut out, sig_b64);
    out.extend_from_slice("]".as_bytes());
    proof {
        assert(out@ =~= spec_gossip_payload(
            result.id@,
            result.worker@,
            output_json@,
            match result.kind {
                Some(k) => Some(k@),
                None => None::<Seq<char>>,
            },
            match *payload_json {
                Some(p) => Some(p@),
                None => None::<Seq<u8>>,
            },
            sig_b64@,
        ));
    }
    out
}

} // verus!
