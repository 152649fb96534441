use bulletproofs::{BulletproofGens, PedersenGens};
use curve25519_dalek_ng::scalar::Scalar;
use rangeproof::{prove_multiple, prove_single, prove_with_bits, verify_proof, RangeProofError};

fn blinding(tag: u8) -> [u8; 32] {
    let mut b = [0u8; 32];
    for (i, byte) in b.iter_mut().enumerate() {
        *byte = tag.wrapping_add(i as u8).wrapping_mul(31).wrapping_add(1);
    }
    b
}

#[test]
fn shape_mismatch_rejected() {
    let values: Vec<u64> = vec![1, 2, 3];
    let blindings: Vec<[u8; 32]> = vec![blinding(1), blinding(2)];
    assert_eq!(
        prove_multiple(&values, &blindings).err(),
        Some(RangeProofError::ShapeMismatch)
    );
}

#[test]
fn narrow_width_range_violation() {
    let blindings: Vec<[u8; 32]> = vec![blinding(3)];
    let r = prove_with_bits(&vec![256u64], &blindings, 8);
    assert_eq!(r.err(), Some(RangeProofError::RangeViolation));
    let r = prove_with_bits(&vec![1u64 << 32], &blindings, 32);
    assert_eq!(r.err(), Some(RangeProofError::RangeViolation));
    let r = prove_with_bits(&vec![255u64], &blindings, 8);
    assert!(r.is_ok());
}

#[test]
fn aggregation_size_violation() {
    let r = prove_multiple(&Vec::new(), &Vec::new());
    assert_eq!(r.err(), Some(RangeProofError::AggregationSizeViolation));

    let values: Vec<u64> = vec![7; 1025];
    let blindings: Vec<[u8; 32]> = vec![blinding(4); 1025];
    let r = prove_multiple(&values, &blindings);
    assert_eq!(r.err(), Some(RangeProofError::AggregationSizeViolation));
}

#[test]
fn invalid_bitsize_protocol_error() {
    let r = prove_with_bits(&vec![1u64], &vec![blinding(5)], 5);
    assert_eq!(r.err(), Some(RangeProofError::Protocol));
}

#[test]
fn single_proof_verifies() {
    let bundle = prove_single(1037578891, blinding(6)).unwrap();
    assert_eq!(bundle.effective, 1);
    assert_eq!(bundle.commitments.len(), 1);
    assert!(verify_proof(&bundle.bytes, &bundle.commitments));
}

#[test]
fn end_to_end_roundtrip() {
    let values: Vec<u64> = vec![4242344947, 3718732727, 2255562556, 2526146994];
    let blindings: Vec<[u8; 32]> = vec![blinding(10), blinding(20), blinding(30), blinding(40)];
    let bundle = prove_multiple(&values, &blindings).unwrap();
    assert_eq!(bundle.effective, 4);
    assert_eq!(bundle.commitments.len(), 4);
    assert!(verify_proof(&bundle.bytes, &bundle.commitments));

    // The commitments must be the Pedersen commitments of the witnesses
    // under the default generator pair, in witness order.
    let pc = PedersenGens::default();
    for i in 0..4 {
        let expected = pc
            .commit(
                Scalar::from(values[i]),
                Scalar::from_bytes_mod_order(blindings[i]),
            )
            .compress()
            .to_bytes();
        assert_eq!(bundle.commitments[i], expected);
    }
}

#[test]
fn non_power_of_two_padded() {
    let values: Vec<u64> = vec![11, 22, 33];
    let blindings: Vec<[u8; 32]> = vec![blinding(7), blinding(8), blinding(9)];
    let bundle = prove_multiple(&values, &blindings).unwrap();

    // Padded up to the next power of two with zero-valued witnesses.
    assert_eq!(bundle.effective, 3);
    assert_eq!(bundle.commitments.len(), 4);
    assert!(verify_proof(&bundle.bytes, &bundle.commitments));

    // The three real commitments remain recoverable, the padding one is
    // discardable.
    let real = bundle.real_commitments();
    assert_eq!(real.len(), 3);
    assert_eq!(real[..], bundle.commitments[..3]);
    let pc = PedersenGens::default();
    for i in 0..3 {
        let expected = pc
            .commit(
                Scalar::from(values[i]),
                Scalar::from_bytes_mod_order(blindings[i]),
            )
            .compress()
            .to_bytes();
        assert_eq!(real[i], expected);
    }

    // The padding slot gets a freshly drawn blinding factor, so a second
    // run over the same input yields a different padding commitment.
    let again = prove_multiple(&values, &blindings).unwrap();
    assert_eq!(again.commitments[..3], bundle.commitments[..3]);
    assert_ne!(again.commitments[3], bundle.commitments[3]);
}

#[test]
fn proof_length_constant_single() {
    let a = prove_single(3, blinding(11)).unwrap();
    let b = prove_single(u64::MAX, blinding(12)).unwrap();
    // (2 * lg(64) + 9) 32-byte elements.
    assert_eq!(a.bytes.len(), 672);
    assert_eq!(a.bytes.len(), b.bytes.len());
    assert_ne!(a.bytes, b.bytes);
}

#[test]
fn generator_registry_idempotent() {
    let g1 = BulletproofGens::new(64, 4);
    let g2 = BulletproofGens::new(64, 4);
    assert_eq!(g1.gens_capacity, g2.gens_capacity);
    assert_eq!(g1.party_capacity, g2.party_capacity);

    let p1 = PedersenGens::default();
    let p2 = PedersenGens::default();
    assert_eq!(p1.B.compress().to_bytes(), p2.B.compress().to_bytes());
    assert_eq!(
        p1.B_blinding.compress().to_bytes(),
        p2.B_blinding.compress().to_bytes()
    );

    // The generator points themselves are not reachable through the crate's
    // public surface, but verification rebuilds its own generator set from
    // (64, N) and replays the transcript against it: a proof made under one
    // construction is accepted under an independent one only if the two
    // sets are identical.
    let values: Vec<u64> = vec![5, 6, 7, 8];
    let blindings: Vec<[u8; 32]> = vec![blinding(50), blinding(51), blinding(52), blinding(53)];
    let bundle = prove_multiple(&values, &blindings).unwrap();
    assert!(verify_proof(&bundle.bytes, &bundle.commitments));
}

#[test]
fn buffer_ownership_independent() {
    let mut first = prove_single(41, blinding(13)).unwrap();
    let second = prove_single(42, blinding(14)).unwrap();

    // Mutating and dropping the first buffer must not affect a later,
    // unrelated call or an already produced one.
    for byte in first.bytes.iter_mut() {
        *byte = 0;
    }
    first.commitments.clear();
    drop(first);

    assert!(verify_proof(&second.bytes, &second.commitments));
    let third = prove_single(43, blinding(15)).unwrap();
    assert!(verify_proof(&third.bytes, &third.commitments));
}

#[test]
fn tampered_proof_rejected() {
    let bundle = prove_single(99, blinding(16)).unwrap();
    let mut bytes = bundle.bytes.clone();
    bytes[40] ^= 0xff;
    assert!(!verify_proof(&bytes, &bundle.commitments));
}

#[test]
fn wrong_commitment_rejected() {
    let bundle = prove_single(99, blinding(17)).unwrap();
    let other = prove_single(100, blinding(18)).unwrap();
    assert!(!verify_proof(&bundle.bytes, &other.commitments));
}

#[test]
fn malformed_buffer_rejected() {
    let bundle = prove_single(7, blinding(19)).unwrap();
    // Not a multiple of 32 bytes.
    let odd: Vec<u8> = bundle.bytes[..100].to_vec();
    assert!(!verify_proof(&odd, &bundle.commitments));
    // Too short to hold the fixed elements.
    let short: Vec<u8> = bundle.bytes[..256].to_vec();
    assert!(!verify_proof(&short, &bundle.commitments));
}
