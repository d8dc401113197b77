//! The verifier adapter and the instruction handler's single entry point:
//! decode the payload, check the public-input count against the selected
//! key, run the pairing check, and report the three-way outcome.

use vstd::prelude::*;

verus! {

use crate::codec::decode_payload;
use crate::codec::input_seqs;
use crate::codec::required_len;
use crate::codec::rows_view;
use crate::codec::DecodeError;
use crate::outcome::classify_outcome;
use crate::outcome::report_outcome;
use crate::outcome::spec_classify;
use crate::outcome::RequestError;
use crate::outcome::VerificationOutcome;
use crate::outcome::VerifierFailure;
use crate::pairing::pairing_outcome;
use crate::pairing::run_pairing_check;
use crate::registry::lookup;
use crate::registry::registered_input_count;
use crate::registry::registered_key;
use crate::registry::CircuitId;
use crate::registry::VerifyingKey;
use crate::registry::VkView;

/// The outcome the verifier adapter owes for the given components and key:
/// a mismatched public-input count is a verifier failure before anything
/// runs; otherwise the pairing check's answer, normalised.
pub open spec fn spec_verify_with_key(
    proof_a: Seq<u8>,
    proof_b: Seq<u8>,
    proof_c: Seq<u8>,
    public_inputs: Seq<Seq<u8>>,
    vk: VkView,
) -> VerificationOutcome {
    if public_inputs.len() + 1 != vk.ic.len() {
        VerificationOutcome::VerificationError(VerifierFailure::InputCountMismatch)
    } else {
        spec_classify(pairing_outcome(proof_a, proof_b, proof_c, public_inputs, vk))
    }
}

/// Proof verifier adapter: checks that the public-input count fits the
/// verifying key — checked, never assumed — then invokes the pairing
/// primitive and normalises whatever it returns into the three-way outcome.
pub fn verify_with_key<const N: usize>(
    proof_a: &[u8; 64],
    proof_b: &[u8; 128],
    proof_c: &[u8; 64],
    public_inputs: &[[u8; 32]; N],
    vk: &VerifyingKey,
) -> (r: VerificationOutcome)
    ensures
        r == spec_verify_with_key(proof_a@, proof_b@, proof_c@, rows_view(public_inputs@), vk@),
{
    let count = vk.ic.len();
    if count == 0 || count - 1 != N {
        return VerificationOutcome::VerificationError(VerifierFailure::InputCountMismatch);
    }
    let po = run_pairing_check::<N>(proof_a, proof_b, proof_c, public_inputs, vk);
    classify_outcome(po)
}

/// Copies a vector of input scalars into the fixed-size array the pairing
/// boundary takes.
fn inputs_to_array<const N: usize>(v: &Vec<[u8; 32]>) -> (r: [[u8; 32]; N])
    requires
        v@.len() == N,
    ensures
        r@ == v@,
{
    let mut out: [[u8; 32]; N] = [[0u8; 32]; N];
    let mut i: usize = 0;
    while i < N
        invariant
            i <= N,
            v@.len() == N,
            out@.len() == N,
            forall|j: int| 0 <= j < i ==> out@[j] == v@[j],
        decreases N - i,
    {
        out[i] = v[i];
        i = i + 1;
    }
    proof {
        assert(out@ =~= v@);
    }
    out
}

/// The result the instruction handler owes for a payload and an explicit
/// circuit selection.
pub open spec fn spec_verify_proof(payload: Seq<u8>, circuit: CircuitId) -> Result<
    VerificationOutcome,
    RequestError,
> {
    let vk = registered_key(circuit);
    let n = registered_input_count(circuit);
    if payload.len() < required_len(n) {
        Err(RequestError::Decode(DecodeError::TruncatedPayload))
    } else if payload.len() > required_len(n) {
        Err(RequestError::Decode(DecodeError::LengthMismatch))
    } else {
        match spec_classify(
            pairing_outcome(
                payload.subrange(0, 64),
                payload.subrange(64, 192),
                payload.subrange(192, 256),
                input_seqs(payload, n),
                vk,
            ),
        ) {
            VerificationOutcome::VerificationError(f) => Err(RequestError::Verifier(f)),
            o => Ok(o),
        }
    }
}

/// Single entry point of the handler: authenticates the proof carried by
/// `payload` against the verifying key registered for `circuit`.
///
/// A valid and an invalid proof both complete the request — `Ok` carries the
/// authoritative outcome for the caller to inspect — while a payload of the
/// wrong shape or a verifier failure aborts it with the classified reason.
pub fn verify_proof(payload: &[u8], circuit: CircuitId) -> (r: Result<
    VerificationOutcome,
    RequestError,
>)
    ensures
        r == spec_verify_proof(payload@, circuit),
        r matches Ok(o) ==> o is Valid || o is Invalid,
{
    let vk = lookup(circuit);
    let n = vk.nr_public_inputs();
    let decoded = match decode_payload(payload, n) {
        Ok(d) => d,
        Err(e) => {
            return Err(RequestError::Decode(e));
        },
    };
    let outcome = match circuit {
        CircuitId::Create | CircuitId::Move => {
            let inputs: [[u8; 32]; 1] = inputs_to_array::<1>(&decoded.public_inputs);
            verify_with_key::<1>(&decoded.proof_a, &decoded.proof_b, &decoded.proof_c, &inputs, &vk)
        },
        CircuitId::Demo => {
            let inputs: [[u8; 32]; 9] = inputs_to_array::<9>(&decoded.public_inputs);
            verify_with_key::<9>(&decoded.proof_a, &decoded.proof_b, &decoded.proof_c, &inputs, &vk)
        },
    };
    match report_outcome(outcome) {
        Ok(o) => Ok(o),
        Err(f) => Err(RequestError::Verifier(f)),
    }
}

/// Verification is deterministic and idempotent: two requests with
/// identical payload bytes and the same circuit selection are owed
/// identical results.
pub proof fn lemma_verification_deterministic(
    p1: Seq<u8>,
    p2: Seq<u8>,
    c1: CircuitId,
    c2: CircuitId,
)
    requires
        p1 == p2,
        c1 == c2,
    ensures
        spec_verify_proof(p1, c1) == spec_verify_proof(p2, c2),
{
}

/// A payload whose length does not fit the selected circuit's layout is
/// always rejected with a decode error, never handed to the verifier.
pub proof fn lemma_wrong_length_rejected(payload: Seq<u8>, circuit: CircuitId)
    requires
        payload.len() != required_len(registered_input_count(circuit)),
    ensures
        spec_verify_proof(payload, circuit) matches Err(e) && e is Decode,
{
}

} // verus!
