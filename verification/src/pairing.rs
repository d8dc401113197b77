//! The boundary to the external pairing primitive. Everything on the other
//! side of `run_pairing_check` is the groth16-solana verifier; its answer is
//! named by `pairing_outcome` and everything the library concludes about a
//! proof goes through that name.

use groth16_solana::errors::Groth16Error;
use groth16_solana::groth16::Groth16Verifier;
use groth16_solana::groth16::Groth16Verifyingkey;
use vstd::prelude::*;

verus! {

use crate::codec::rows_view;
use crate::outcome::PairingOutcome;
use crate::registry::VerifyingKey;
use crate::registry::VkView;

/// What the BN254 pairing check answers for the given proof points, public
/// inputs and verifying key. The check is a pure computation: its answer
/// depends on these values alone, on every machine and in every run.
pub uninterp spec fn pairing_outcome(
    proof_a: Seq<u8>,
    proof_b: Seq<u8>,
    proof_c: Seq<u8>,
    public_inputs: Seq<Seq<u8>>,
    vk: VkView,
) -> PairingOutcome;

/// Relies on `groth16_solana::groth16::Groth16Verifier::new` and
/// `Groth16Verifier::verify`: `new` rejects a public-input count that does
/// not fit the key's `ic` table with `InvalidPublicInputsLength`, and
/// `verify` runs the pairing check, answering
/// `Err(ProofVerificationFailed)` both when the equation does not hold and
/// when the pairing call itself fails (a proof point not on the curve) —
/// the crate makes those two indistinguishable — plus
/// `Err(PublicInputGreaterThanFieldSize)` for an out-of-range scalar and a
/// preparation error when a curve operation on the key fails. Construction
/// and check together are one deterministic computation over the argument
/// bytes, named `pairing_outcome`.
#[verifier::external_body]
pub(crate) fn run_pairing_check<const N: usize>(
    proof_a: &[u8; 64],
    proof_b: &[u8; 128],
    proof_c: &[u8; 64],
    public_inputs: &[[u8; 32]; N],
    vk: &VerifyingKey,
) -> (r: PairingOutcome)
    ensures
        r == pairing_outcome(proof_a@, proof_b@, proof_c@, rows_view(public_inputs@), vk@),
{
    let key = Groth16Verifyingkey { nr_pubinputs: N, vk_alpha_g1: vk.alpha_g1,
        vk_beta_g2: vk.beta_g2, vk_gamme_g2: vk.gamma_g2, vk_delta_g2: vk.delta_g2,
        vk_ic: vk.ic.as_slice() };
    let verdict = match Groth16Verifier::new(proof_a, proof_b, proof_c, public_inputs, &key) {
        Ok(mut verifier) => verifier.verify(),
        Err(e) => Err(e),
    };
    match verdict {
        Ok(()) => PairingOutcome::Accepted,
        Err(Groth16Error::ProofVerificationFailed) => PairingOutcome::Rejected,
        Err(Groth16Error::InvalidPublicInputsLength) => PairingOutcome::InputCountMismatch,
        Err(Groth16Error::IncompatibleVerifyingKeyWithNrPublicInputs) => PairingOutcome::InputCountMismatch,
        Err(Groth16Error::PublicInputGreaterThanFieldSize) => PairingOutcome::InputNotInField,
        Err(_) => PairingOutcome::ArithmeticFailure,
    }
}

} // verus!
