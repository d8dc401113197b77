//! The three-way outcome model of a verification request, the normalisation
//! of the pairing primitive's answer into it, and the result reporter.
//!
//! A proof that was checked and rejected is a business outcome, not an
//! error; a verifier that could not run the check is an error, not a
//! rejection. The two are kept in distinct categories everywhere.

use vstd::prelude::*;

verus! {

use crate::codec::DecodeError;

/// What the pairing primitive answered, one variant per distinguishable
/// answer of the external check.
#[derive(Clone, Copy, Debug, PartialEq, Eq, Structural)]
pub enum PairingOutcome {
    /// The check completed and the pairing equation holds.
    Accepted,
    /// The primitive rejected the proof. This covers a completed check whose
    /// equation does not hold, and also a pairing call that failed on the
    /// proof's point encodings: the primitive reports both as one answer and
    /// nothing downstream can tell them apart.
    Rejected,
    /// The number of public inputs does not fit the verifying key.
    InputCountMismatch,
    /// A public-input scalar is not below the BN254 scalar-field modulus.
    InputNotInField,
    /// A curve operation over the inputs failed, for a malformed point
    /// encoding or an internal arithmetic fault.
    ArithmeticFailure,
}

/// Why a verification request failed before the proof could be judged.
#[derive(Clone, Copy, Debug, PartialEq, Eq, Structural)]
pub enum VerifierFailure {
    /// The public-input count does not match what the verifying key expects.
    InputCountMismatch,
    /// A public-input scalar is out of range for the scalar field.
    PublicInputOutOfRange,
    /// The verifier could not finish its curve arithmetic.
    InputPreparationFailed,
}

/// The outcome of one verification request: the proof is valid, the proof is
/// invalid, or the verifier could not decide.
#[derive(Clone, Copy, Debug, PartialEq, Eq, Structural)]
pub enum VerificationOutcome {
    Valid,
    Invalid,
    VerificationError(VerifierFailure),
}

/// Everything that aborts a request: a payload of the wrong shape, or a
/// verifier failure.
#[derive(Clone, Copy, Debug, PartialEq, Eq, Structural)]
pub enum RequestError {
    Decode(DecodeError),
    Verifier(VerifierFailure),
}

/// The outcome category owed for each answer of the pairing primitive.
pub open spec fn spec_classify(po: PairingOutcome) -> VerificationOutcome {
    match po {
        PairingOutcome::Accepted => VerificationOutcome::Valid,
        PairingOutcome::Rejected => VerificationOutcome::Invalid,
        PairingOutcome::InputCountMismatch => VerificationOutcome::VerificationError(
            VerifierFailure::InputCountMismatch,
        ),
        PairingOutcome::InputNotInField => VerificationOutcome::VerificationError(
            VerifierFailure::PublicInputOutOfRange,
        ),
        PairingOutcome::ArithmeticFailure => VerificationOutcome::VerificationError(
            VerifierFailure::InputPreparationFailed,
        ),
    }
}

/// Normalises the pairing primitive's answer into the three-way outcome.
/// Every failure the primitive distinguishes from a rejection is kept apart
/// from `Invalid`; the one conflation the primitive itself makes — a failed
/// pairing call reported as a rejection — is inherited by `Invalid`, since
/// no caller of the primitive can undo it.
pub fn classify_outcome(po: PairingOutcome) -> (r: VerificationOutcome)
    ensures
        r == spec_classify(po),
{
    match po {
        PairingOutcome::Accepted => VerificationOutcome::Valid,
        PairingOutcome::Rejected => VerificationOutcome::Invalid,
        PairingOutcome::InputCountMismatch => VerificationOutcome::VerificationError(
            VerifierFailure::InputCountMismatch,
        ),
        PairingOutcome::InputNotInField => VerificationOutcome::VerificationError(
            VerifierFailure::PublicInputOutOfRange,
        ),
        PairingOutcome::ArithmeticFailure => VerificationOutcome::VerificationError(
            VerifierFailure::InputPreparationFailed,
        ),
    }
}

/// The handler-level result owed for each outcome.
pub open spec fn spec_report(o: VerificationOutcome) -> Result<
    VerificationOutcome,
    VerifierFailure,
> {
    match o {
        VerificationOutcome::VerificationError(f) => Err(f),
        _ => Ok(o),
    }
}

/// Result reporter: a valid proof and a rejected proof both complete the
/// request — the instruction ran correctly either way — while a verifier
/// failure aborts it with the classified reason, so upstream logic cannot
/// mistake a verifier malfunction for a rejected proof.
pub fn report_outcome(o: VerificationOutcome) -> (r: Result<VerificationOutcome, VerifierFailure>)
    ensures
        r == spec_report(o),
        r is Err <==> o is VerificationError,
{
    match o {
        VerificationOutcome::VerificationError(f) => Err(f),
        _ => Ok(o),
    }
}

impl VerificationOutcome {
    /// The human-readable trace line for this outcome.
    pub fn trace_message(&self) -> (r: &'static str)
        ensures
            self is Valid ==> r@ == "verification succeeded"@,
            self is Invalid ==> r@ == "verification failed"@,
            self is VerificationError ==> r@ == "verification error"@,
    {
        match self {
            VerificationOutcome::Valid => "verification succeeded",
            VerificationOutcome::Invalid => "verification failed",
            VerificationOutcome::VerificationError(_) => "verification error",
        }
    }
}

} // verus!
