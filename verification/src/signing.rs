//! The identity and signing subsystem: a per-process ed25519 keypair and
//! detached signatures over the canonical subset of a result.
//!
//! The signature covers only the canonical payload `{id, worker, output}`;
//! a result's `kind` and `payload` metadata are deliberately outside the
//! trust boundary (see `lemma_canonical_ignores_metadata`).
use vstd::prelude::*;

use crate::b64::{base64_of, spec_base64};
use crate::json::{canonical_signing_payload, spec_canonical};
use crate::task::ResultData;

verus! {

#[verifier::external_type_specification]
#[verifier::external_body]
pub struct ExKeypair(libp2p::identity::Keypair);

#[verifier::external_type_specification]
#[verifier::external_body]
pub struct ExSigningError(libp2p::identity::SigningError);

/// Whether ed25519 verification succeeds for the given public-key
/// encoding, message and detached signature: the result of
/// `ed25519::PublicKey::try_from_bytes` followed by
/// `ed25519::PublicKey::verify` of libp2p-identity, which depends on the
/// three byte strings alone.
pub uninterp spec fn ed25519_verify_ok(pk: Seq<u8>, msg: Seq<u8>, sig: Seq<u8>) -> bool;

/// Why the worker cannot go on: these conditions abort the process, which
/// cannot meaningfully continue without an identity, a registration or the
/// ability to report results.
#[derive(Clone, Copy, PartialEq, Eq, Structural, Debug)]
pub enum WorkerError {
    /// The key scheme did not produce a public key in the encoding the
    /// coordinator expects.
    IdentityUnavailable,
    /// Signing the canonical payload failed.
    SigningFailed,
    /// The coordinator answered registration with a non-success status.
    RegistrationRejected { status: u16 },
    /// The coordinator answered a result submission with a non-success
    /// status.
    SubmissionRejected { status: u16 },
}

/// The process identity: an ed25519 keypair generated once per start and
/// never persisted, together with the 32-byte encoding of its public key.
pub struct Identity {
    keypair: libp2p::identity::Keypair,
    pk: Vec<u8>,
}

impl Identity {
    /// The encoding of this identity's public key.
    pub closed spec fn spec_pk(&self) -> Seq<u8> {
        self.pk@
    }

    /// Relies on `Keypair::generate_ed25519`, `Keypair::public`,
    /// `PublicKey::try_into_ed25519` and `ed25519::PublicKey::to_bytes` of
    /// libp2p-identity: a fresh ed25519 keypair whose public key encodes as
    /// exactly 32 bytes; the stored bytes are the encoding of that
    /// keypair's own public key. On a freshly generated ed25519 keypair the
    /// conversion to an ed25519 public key cannot fail, so an identity is
    /// always produced; the `None` arm only mirrors the conversion's
    /// signature.
    #[verifier::external_body]
    pub fn generate() -> (r: Option<Identity>)
        ensures
            r is Some,
            r is Some ==> r.unwrap().spec_pk().len() == 32,
    {
        let keypair = libp2p::identity::Keypair::generate_ed25519();
        match keypair.public().try_into_ed25519() {
            Ok(public) => Some(Identity { pk: public.to_bytes().to_vec(), keypair }),
            Err(_) => None,
        }
    }

    /// The underlying keypair, lent to the transport layer so the overlay
    /// authenticates as the same identity that signs results.
    pub fn keypair(&self) -> &libp2p::identity::Keypair {
        &self.keypair
    }

    /// The raw public-key encoding advertised to the coordinator.
    pub fn public_key_bytes(&self) -> (r: &Vec<u8>)
        ensures
            r@ == self.spec_pk(),
    {
        &self.pk
    }

    /// The base64 transport form of the public-key encoding.
    pub fn public_key_base64(&self) -> (r: String)
        ensures
            r@ == spec_base64(self.spec_pk()),
    {
        base64_of(&self.pk)
    }

    /// Relies on `Keypair::sign` of libp2p-identity: a detached ed25519
    /// signature (64 bytes) over `msg` that verifies under this keypair's
    /// public key — the key whose encoding `generate` stored beside it.
    /// For an ed25519 keypair, the only kind `generate` produces, `sign`
    /// is unconditionally `Ok`, so success is promised.
    #[verifier::external_body]
    fn sign_raw(&self, msg: &[u8]) -> (r: Result<Vec<u8>, libp2p::identity::SigningError>)
        ensures
            r is Ok,
            r is Ok ==> r.unwrap()@.len() == 64,
            r is Ok ==> ed25519_verify_ok(self.spec_pk(), msg@, r.unwrap()@),
    {
        self.keypair.sign(msg)
    }
}

/// Relies on `ed25519::PublicKey::try_from_bytes` and
/// `ed25519::PublicKey::verify` of libp2p-identity: deterministic
/// verification of a detached signature, false when the key bytes do not
/// decode as an ed25519 public key.
#[verifier::external_body]
fn verify_raw(pk: &[u8], msg: &[u8], sig: &[u8]) -> (r: bool)
    ensures
        r == ed25519_verify_ok(pk@, msg@, sig@),
{
    match libp2p::identity::ed25519::PublicKey::try_from_bytes(pk) {
        Ok(public) => public.verify(msg, sig),
        Err(_) => false,
    }
}

/// Checks a detached signature against a public-key encoding and a
/// message.
pub fn verify_detached(pk: &Vec<u8>, msg: &Vec<u8>, sig: &Vec<u8>) -> (r: bool)
    ensures
        r == ed25519_verify_ok(pk@, msg@, sig@),
{
    verify_raw(pk.as_slice(), msg.as_slice(), sig.as_slice())
}

/// A result's attestation: the canonical payload that was signed, the
/// detached signature over it, and the signature's base64 transport form.
pub struct Attestation {
    pub canonical: Vec<u8>,
    pub signature: Vec<u8>,
    pub signature_b64: String,
}

/// Builds the canonical signing payload of a result and signs it. `number`
/// must be the JSON text of the result's numeric output as the process
/// boundary renders it; the canonical bytes are then exact, and the
/// returned signature verifies under the identity's public key. Success is
/// owed for every result: the canonical payload is built by verified code
/// that cannot fail, and the ed25519 primitive signs any byte string, so
/// the result is always `Ok`. (A failure of the primitive would be fatal
/// for the worker; the error arm only mirrors its signature.)
pub fn sign_result(identity: &Identity, result: &ResultData, number: &Vec<u8>) -> (r: Result<
    Attestation,
    WorkerError,
>)
    ensures
        r is Ok ==> r.unwrap().canonical@ == spec_canonical(
            result.id@,
            result.worker@,
            number@,
        ),
        r is Ok ==> ed25519_verify_ok(
            identity.spec_pk(),
            r.unwrap().canonical@,
            r.unwrap().signature@,
        ),
        r is Ok ==> r.unwrap().signature@.len() == 64,
        r is Ok ==> r.unwrap().signature_b64@ == spec_base64(r.unwrap().signature@),
        r is Ok,
{
    let canonical = canonical_signing_payload(result.id.as_str(), result.worker.as_str(), number);
    match identity.sign_raw(canonical.as_slice()) {
        Ok(signature) => {
            let signature_b64 = base64_of(&signature);
            Ok(Attestation { canonical, signature, signature_b64 })
        },
        Err(_) => Err(WorkerError::SigningFailed),
    }
}

/// The signature's trust boundary: two results that agree on id, worker
/// and output sign the very same canonical payload, so a change of the
/// `kind` or `payload` metadata alone can never affect verification.
pub proof fn lemma_canonical_ignores_metadata(a: ResultData, b: ResultData, number: Seq<u8>)
    requires
        a.id@ == b.id@,
        a.worker@ == b.worker@,
        a.output == b.output,
    ensures
        spec_canonical(a.id@, a.worker@, number) == spec_canonical(b.id@, b.worker@, number),
{
}

} // verus!
