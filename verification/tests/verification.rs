use ark_serialize::CanonicalDeserialize;
use ark_serialize::CanonicalSerialize;
use bunnybattle_solana::handler::verify_proof;
use bunnybattle_solana::outcome::RequestError;
use bunnybattle_solana::outcome::VerificationOutcome;
use bunnybattle_solana::outcome::VerifierFailure;
use bunnybattle_solana::registry::lookup;
use bunnybattle_solana::registry::CircuitId;
use std::ops::Neg;

pub const PROOF: [u8; 256] = [
    45, 206, 255, 166, 152, 55, 128, 138, 79, 217, 145, 164, 25, 74, 120, 234,
    234, 217, 68, 149, 162, 44, 133, 120, 184, 205, 12, 44, 175, 98, 168, 172,
    20, 24, 216, 15, 209, 175, 106, 75, 147, 236, 90, 101, 123, 219, 245, 151,
    209, 202, 218, 104, 148, 8, 32, 254, 243, 191, 218, 122, 42, 81, 193, 84,
    40, 57, 233, 205, 180, 46, 35, 111, 215, 5, 23, 93, 12, 71, 118, 225,
    7, 46, 247, 147, 47, 130, 106, 189, 184, 80, 146, 103, 141, 52, 242, 25,
    0, 203, 124, 176, 110, 34, 151, 212, 66, 180, 238, 151, 236, 189, 133, 209,
    17, 137, 205, 183, 168, 196, 92, 159, 75, 174, 81, 168, 18, 86, 176, 56,
    16, 26, 210, 20, 18, 81, 122, 142, 104, 62, 251, 169, 98, 141, 21, 253,
    50, 130, 182, 15, 33, 109, 228, 31, 79, 183, 88, 147, 174, 108, 4, 22,
    14, 129, 168, 6, 80, 246, 254, 100, 218, 131, 94, 49, 247, 211, 3, 245,
    22, 200, 177, 91, 60, 144, 147, 174, 90, 17, 19, 189, 62, 147, 152, 18,
    41, 139, 183, 208, 246, 198, 118, 127, 89, 160, 9, 27, 61, 26, 123, 180,
    221, 108, 17, 166, 47, 115, 82, 48, 132, 139, 253, 65, 152, 92, 209, 53,
    37, 25, 83, 61, 252, 42, 181, 243, 16, 21, 2, 199, 123, 96, 218, 151,
    253, 86, 69, 181, 202, 109, 64, 129, 124, 254, 192, 25, 177, 199, 26, 50,
];

pub const PUBLIC_INPUT_0: [u8; 32] = [
    34, 238, 251, 182, 234, 248, 214, 189, 46, 67, 42, 25, 71, 58, 145, 58,
    61, 28, 116, 110, 60, 17, 82, 149, 178, 187, 160, 211, 37, 226, 174, 231,
];

pub const PUBLIC_INPUT_1: [u8; 32] = [
    0, 0, 0, 0, 0, 0, 0, 0, 0, 0, 0, 0, 0, 0, 0, 0,
    0, 0, 0, 0, 0, 0, 0, 0, 0, 0, 0, 0, 51, 152, 17, 147,
];

pub const PUBLIC_INPUT_2: [u8; 32] = [
    4, 247, 199, 87, 230, 85, 103, 90, 28, 183, 95, 100, 200, 46, 3, 158,
    247, 196, 173, 146, 207, 167, 108, 33, 199, 18, 13, 204, 198, 101, 223, 186,
];

pub const PUBLIC_INPUT_3: [u8; 32] = [
    0, 0, 0, 0, 0, 0, 0, 0, 0, 0, 0, 0, 0, 0, 0, 0,
    0, 0, 0, 0, 0, 0, 0, 0, 0, 0, 0, 0, 7, 49, 65, 41,
];

pub const PUBLIC_INPUT_4: [u8; 32] = [
    7, 130, 55, 65, 197, 232, 175, 217, 44, 151, 149, 225, 75, 86, 158, 105,
    43, 229, 65, 87, 51, 150, 168, 243, 176, 175, 11, 203, 180, 149, 72, 103,
];

pub const PUBLIC_INPUT_5: [u8; 32] = [
    46, 93, 177, 62, 42, 66, 223, 153, 51, 193, 146, 49, 154, 41, 69, 198,
    224, 13, 87, 80, 222, 171, 37, 141, 0, 1, 50, 172, 18, 28, 213, 213,
];

pub const PUBLIC_INPUT_6: [u8; 32] = [
    40, 141, 45, 3, 180, 200, 250, 112, 108, 94, 35, 143, 82, 63, 125, 9,
    147, 37, 191, 75, 62, 221, 138, 20, 166, 151, 219, 237, 254, 58, 230, 189,
];

pub const PUBLIC_INPUT_7: [u8; 32] = [
    33, 100, 143, 241, 11, 251, 73, 141, 229, 57, 129, 168, 83, 23, 235, 147,
    138, 225, 177, 250, 13, 97, 226, 162, 6, 232, 52, 95, 128, 84, 90, 202,
];

pub const PUBLIC_INPUT_8: [u8; 32] = [
    25, 178, 1, 208, 219, 169, 222, 123, 113, 202, 165, 77, 183, 98, 103, 237,
    187, 93, 178, 95, 169, 156, 38, 100, 125, 218, 104, 94, 104, 119, 13, 21,
];

fn change_endianness(bytes: &[u8]) -> Vec<u8> {
    let mut out = Vec::new();
    for chunk in bytes.chunks(32) {
        for b in chunk.iter().rev() {
            out.push(*b);
        }
    }
    out
}

/// The proof-A point negated, as the on-chain pairing layout expects it.
fn negated_proof_a() -> [u8; 64] {
    let mut little_endian = change_endianness(&PROOF[0..64]);
    little_endian.push(0u8);
    let point = ark_bn254::g1::G1Affine::deserialize_with_mode(
        little_endian.as_slice(),
        ark_serialize::Compress::No,
        ark_serialize::Validate::Yes,
    )
    .unwrap();
    let negated = point.neg();
    let mut raw = [0u8; 64];
    negated
        .x
        .serialize_with_mode(&mut raw[..32], ark_serialize::Compress::No)
        .unwrap();
    negated
        .y
        .serialize_with_mode(&mut raw[32..], ark_serialize::Compress::No)
        .unwrap();
    change_endianness(&raw).try_into().unwrap()
}

fn public_inputs() -> [[u8; 32]; 9] {
    [
        PUBLIC_INPUT_0,
        PUBLIC_INPUT_1,
        PUBLIC_INPUT_2,
        PUBLIC_INPUT_3,
        PUBLIC_INPUT_4,
        PUBLIC_INPUT_5,
        PUBLIC_INPUT_6,
        PUBLIC_INPUT_7,
        PUBLIC_INPUT_8,
    ]
}

/// The full instruction payload for the known-valid proof.
fn valid_payload() -> Vec<u8> {
    let mut payload = Vec::new();
    payload.extend_from_slice(&negated_proof_a());
    payload.extend_from_slice(&PROOF[64..256]);
    for input in public_inputs().iter() {
        payload.extend_from_slice(input);
    }
    payload
}

#[test]
fn known_valid_proof_accepted() {
    let r = verify_proof(&valid_payload(), CircuitId::Demo);
    assert_eq!(r, Ok(VerificationOutcome::Valid));
}

#[test]
fn altered_public_input_rejected() {
    let mut payload = valid_payload();
    // Bump the low byte of the second public input: the proof no longer
    // matches the values it was generated against.
    let pos = 256 + 32 + 31;
    payload[pos] = payload[pos].wrapping_add(1);
    let r = verify_proof(&payload, CircuitId::Demo);
    assert_eq!(r, Ok(VerificationOutcome::Invalid));
}

#[test]
fn proof_a_byte_flips_never_valid() {
    for pos in [0usize, 1, 31, 32, 63] {
        let mut payload = valid_payload();
        payload[pos] ^= 0x01;
        let r = verify_proof(&payload, CircuitId::Demo);
        assert_ne!(r, Ok(VerificationOutcome::Valid), "flip at {pos}");
    }
}

#[test]
fn verification_idempotent() {
    let payload = valid_payload();
    let first = verify_proof(&payload, CircuitId::Demo);
    let second = verify_proof(&payload, CircuitId::Demo);
    assert_eq!(first, second);
    assert_eq!(first, Ok(VerificationOutcome::Valid));
}

#[test]
fn circuit_selection_changes_the_required_layout() {
    // Selection is explicit and decides the layout: the demonstration
    // payload fits only the demonstration circuit; against the deployed
    // one-input slots it is a length mismatch, never silently accepted.
    let payload = valid_payload();
    assert_eq!(
        verify_proof(&payload, CircuitId::Demo),
        Ok(VerificationOutcome::Valid)
    );
    assert_eq!(
        verify_proof(&payload, CircuitId::Create),
        Err(RequestError::Decode(
            bunnybattle_solana::codec::DecodeError::LengthMismatch
        ))
    );
}

/// A 288-byte payload: well-formed proof points and one public input whose
/// low byte is the given value.
fn one_input_payload(input_low_byte: u8) -> Vec<u8> {
    let mut payload = Vec::new();
    payload.extend_from_slice(&negated_proof_a());
    payload.extend_from_slice(&PROOF[64..256]);
    let mut input = [0u8; 32];
    input[31] = input_low_byte;
    payload.extend_from_slice(&input);
    payload
}

// No proving key is provisioned for the placeholder slots, so the pairing
// check rejects any proof there; the request itself still completes, with
// `Invalid` reported and inspectable, never a decode error or a crash.
#[test]
fn create_slot_completes_one_input_requests() {
    let r = verify_proof(&one_input_payload(12), CircuitId::Create);
    assert_eq!(r, Ok(VerificationOutcome::Invalid));
}

#[test]
fn move_slot_completes_one_input_requests() {
    let r = verify_proof(&one_input_payload(13), CircuitId::Move);
    assert_eq!(r, Ok(VerificationOutcome::Invalid));
}

#[test]
fn out_of_range_public_input_is_an_error() {
    let mut payload = valid_payload();
    for b in payload.iter_mut().skip(256).take(32) {
        *b = 0xFF;
    }
    let r = verify_proof(&payload, CircuitId::Demo);
    assert_eq!(
        r,
        Err(RequestError::Verifier(VerifierFailure::PublicInputOutOfRange))
    );
}

#[test]
fn registry_lookup_is_total() {
    assert_eq!(lookup(CircuitId::Create).nr_public_inputs(), 1);
    assert_eq!(lookup(CircuitId::Move).nr_public_inputs(), 1);
    assert_eq!(lookup(CircuitId::Demo).nr_public_inputs(), 9);
    assert_eq!(lookup(CircuitId::Create).ic.len(), 2);
    assert_ne!(
        lookup(CircuitId::Create).ic[1],
        lookup(CircuitId::Move).ic[1]
    );
}

#[test]
fn input_count_mismatch_is_an_error() {
    let key = lookup(CircuitId::Demo);
    let d = bunnybattle_solana::codec::decode_payload(&valid_payload(), 9)
        .ok()
        .unwrap();
    let one_input = [d.public_inputs[0]];
    let r = bunnybattle_solana::handler::verify_with_key::<1>(
        &d.proof_a,
        &d.proof_b,
        &d.proof_c,
        &one_input,
        &key,
    );
    assert_eq!(
        r,
        VerificationOutcome::VerificationError(VerifierFailure::InputCountMismatch)
    );
}

#[test]
fn malformed_key_points_are_an_error() {
    // A key whose table entries are not curve points: input preparation
    // cannot run, which is a verifier failure, not a proof rejection.
    let key = bunnybattle_solana::registry::VerifyingKey {
        alpha_g1: [1u8; 64],
        beta_g2: [1u8; 128],
        gamma_g2: [1u8; 128],
        delta_g2: [1u8; 128],
        ic: vec![[1u8; 64], [1u8; 64]],
    };
    let inputs = [[0u8; 32]];
    let r = bunnybattle_solana::handler::verify_with_key::<1>(
        &[0u8; 64],
        &[0u8; 128],
        &[0u8; 64],
        &inputs,
        &key,
    );
    assert_eq!(
        r,
        VerificationOutcome::VerificationError(VerifierFailure::InputPreparationFailed)
    );
}
