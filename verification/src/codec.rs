//! Instruction decoder: turns an untrusted byte buffer into the typed
//! algebraic components of a Groth16 proof, enforcing the payload layout
//! before any cryptography runs.
//!
//! The layout is fixed: proof point A at offset 0 (64 bytes), proof point B
//! at offset 64 (128 bytes), proof point C at offset 192 (64 bytes), then
//! one 32-byte public-input scalar per expected input. A buffer whose length
//! does not match is rejected, never sliced past its end.

use vstd::prelude::*;

verus! {

/// Why a payload could not be decoded.
#[derive(Clone, Copy, Debug, PartialEq, Eq, Structural)]
pub enum DecodeError {
    /// The buffer is shorter than the layout requires for the expected
    /// public-input count.
    TruncatedPayload,
    /// The buffer is longer than the layout allows for the expected
    /// public-input count.
    LengthMismatch,
}

/// The typed components of a proof payload. The point encodings are kept as
/// raw fixed-size byte blocks; whether they are valid curve points is decided
/// by the pairing primitive, not by the decoder.
pub struct DecodedProof {
    pub proof_a: [u8; 64],
    pub proof_b: [u8; 128],
    pub proof_c: [u8; 64],
    pub public_inputs: Vec<[u8; 32]>,
}

/// The exact payload length the layout requires for `n` public inputs.
pub open spec fn required_len(n: nat) -> nat {
    256 + 32 * n
}

/// The byte rows of a sequence of fixed-size blocks.
pub open spec fn rows_view<const N: usize>(s: Seq<[u8; N]>) -> Seq<Seq<u8>> {
    s.map_values(|a: [u8; N]| a@)
}

/// The `n` public-input scalars a well-sized payload carries.
pub open spec fn input_seqs(payload: Seq<u8>, n: nat) -> Seq<Seq<u8>> {
    Seq::new(n, |i: int| payload.subrange(256 + 32 * i, 288 + 32 * i))
}

/// Whether the decoded components are exactly the designated regions of the
/// payload.
pub open spec fn decodes_to(payload: Seq<u8>, n: nat, d: DecodedProof) -> bool {
    &&& d.proof_a@ == payload.subrange(0, 64)
    &&& d.proof_b@ == payload.subrange(64, 192)
    &&& d.proof_c@ == payload.subrange(192, 256)
    &&& d.public_inputs@.len() == n
    &&& rows_view(d.public_inputs@) == input_seqs(payload, n)
}

/// Copies the `N`-byte block of `payload` that starts at `offset`.
fn read_block<const N: usize>(payload: &[u8], offset: usize) -> (r: [u8; N])
    requires
        offset + N <= payload@.len(),
    ensures
        r@ == payload@.subrange(offset as int, offset + N),
{
    let total: usize = payload.len();
    let mut out: [u8; N] = [0u8; N];
    let mut i: usize = 0;
    while i < N
        invariant
            i <= N,
            offset + N <= total,
            total == payload@.len(),
            out@.len() == N,
            forall|j: int| 0 <= j < i ==> out@[j] == payload@[offset + j],
        decreases N - i,
    {
        out[i] = payload[offset + i];
        i = i + 1;
    }
    proof {
        assert(out@ =~= payload@.subrange(offset as int, offset + N));
    }
    out
}

/// Splits a payload into proof points A, B, C and `n` public-input scalars.
///
/// Fails closed: a buffer of the wrong length yields a `DecodeError` that
/// says whether it was too short or too long, and no component is ever built
/// from missing or surplus bytes.
pub fn decode_payload(payload: &[u8], n: usize) -> (r: Result<DecodedProof, DecodeError>)
    requires
        256 + 32 * (n as int) <= usize::MAX as int,
    ensures
        r is Ok <==> payload@.len() == required_len(n as nat),
        payload@.len() < required_len(n as nat) ==> r == Err::<DecodedProof, DecodeError>(
            DecodeError::TruncatedPayload,
        ),
        payload@.len() > required_len(n as nat) ==> r == Err::<DecodedProof, DecodeError>(
            DecodeError::LengthMismatch,
        ),
        r matches Ok(d) ==> decodes_to(payload@, n as nat, d),
{
    let need: usize = 256 + 32 * n;
    if payload.len() < need {
        return Err(DecodeError::TruncatedPayload);
    }
    if payload.len() > need {
        return Err(DecodeError::LengthMismatch);
    }
    let proof_a: [u8; 64] = read_block::<64>(payload, 0);
    let proof_b: [u8; 128] = read_block::<128>(payload, 64);
    let proof_c: [u8; 64] = read_block::<64>(payload, 192);
    let mut public_inputs: Vec<[u8; 32]> = Vec::new();
    let mut k: usize = 0;
    while k < n
        invariant
            k <= n,
            payload@.len() == 256 + 32 * n,
            256 + 32 * (n as int) <= usize::MAX as int,
            public_inputs@.len() == k,
            forall|i: int|
                0 <= i < k ==> (#[trigger] public_inputs@[i])@ == payload@.subrange(
                    256 + 32 * i,
                    288 + 32 * i,
                ),
        decreases n - k,
    {
        let block: [u8; 32] = read_block::<32>(payload, 256 + 32 * k);
        public_inputs.push(block);
        k = k + 1;
    }
    proof {
        assert forall|i: int| 0 <= i < n implies rows_view(public_inputs@)[i] == input_seqs(
            payload@,
            n as nat,
        )[i] by {
            assert(public_inputs@[i]@ == payload@.subrange(256 + 32 * i, 288 + 32 * i));
        }
        assert(rows_view(public_inputs@) =~= input_seqs(payload@, n as nat));
    }
    Ok(DecodedProof { proof_a, proof_b, proof_c, public_inputs })
}

} // verus!
