//! The proof engine boundary: the calls into the bulletproofs prover and
//! verifier, with the serialization to and from the protocol's canonical
//! byte layout, behind contracts over plain values.
//!
//! Each call builds its own fresh merlin transcript from the given
//! domain-separation label, so a transcript is single-use by construction
//! and the label a proof was made under is part of its contract: a proof
//! is accepted only by a verifier run under the same label.

use vstd::prelude::*;
use crate::generators::{
    bp_gens_bit_capacity, bp_gens_points, bp_party_capacity, derived_gens_points,
    pedersen_is_default,
};
use crate::witness::{log2, valid_bitsize};
use vstd::arithmetic::power2::is_pow2;

verus! {

#[verifier::external_type_specification]
#[verifier::external_body]
pub struct ExProofError(bulletproofs::ProofError);

/// The Pedersen commitment to `value` under the blinding scalar that
/// `blinding` reduces to mod the group order, over the default generator
/// pair, in compressed 32-byte form: a function of its arguments alone.
pub uninterp spec fn commitment_of(value: u64, blinding: [u8; 32]) -> [u8; 32];

/// Whether range-proof verification at `bits` bits — run with a fresh
/// transcript labelled `label`, the default Pedersen pair and the derived
/// vector generators for `(bits, commitments.len())` — accepts `bytes`
/// against `commitments` for every choice of the verifier's internal
/// batching randomness.  A function of its arguments alone.
pub uninterp spec fn accepts(
    label: Seq<char>,
    bits: nat,
    bytes: Seq<u8>,
    commitments: Seq<[u8; 32]>,
) -> bool;

/// Whether `bytes` parses as a serialized range proof: a function of the
/// bytes alone.
pub uninterp spec fn parseable(bytes: Seq<u8>) -> bool;

/// Relies on `bulletproofs::RangeProof::prove_multiple`, which runs the
/// aggregated range-proof protocol and, for a bit-width in {8, 16, 32, 64},
/// a power-of-two witness count, generators derived for exactly that shape,
/// and as many blinding blocks as witnesses, succeeds and returns one
/// commitment per witness — the Pedersen commitment of that witness under
/// its blinding, in witness order; on `bulletproofs::RangeProof::to_bytes`,
/// whose buffer holds (9 + 2·lg(bits·count)) 32-byte elements, parses back,
/// and — with the verifier replaying the same label — satisfies the
/// verification equations for every batching scalar; on
/// `merlin::Transcript::new` for the fresh label-only transcript; and on
/// `curve25519_dalek_ng::scalar::Scalar::from_bytes_mod_order`, which
/// reduces any 32 blinding bytes mod the group order, never rejecting.
///
/// The success clause treats the prover's defensive check against a zero
/// Fiat-Shamir challenge scalar as unreachable: that event depends on
/// internal randomness and has probability about 2^-252.
#[verifier::external_body]
pub(crate) fn prove_range_serialized(
    bp: &bulletproofs::BulletproofGens,
    pc: &bulletproofs::PedersenGens,
    label: &'static str,
    values: &Vec<u64>,
    blindings: &Vec<[u8; 32]>,
    bits: usize,
) -> (r: Result<(Vec<u8>, Vec<[u8; 32]>), bulletproofs::ProofError>)
    requires
        values@.len() == blindings@.len(),
        1 <= values@.len(),
        is_pow2(values@.len() as int),
        valid_bitsize(bits as nat),
        pedersen_is_default(*pc),
        bp_gens_bit_capacity(*bp) == bits as nat,
        bp_party_capacity(*bp) == values@.len(),
        bp_gens_points(*bp) == derived_gens_points(bits as nat, values@.len()),
    ensures
        r is Ok,
        r matches Ok(p) ==> {
            &&& p.1@.len() == values@.len()
            &&& forall|i: int|
                0 <= i < values@.len() ==> p.1@[i] == commitment_of(values@[i], blindings@[i])
            &&& p.0@.len() == 32 * (9 + 2 * log2(bits as nat * values@.len()))
            &&& p.0@.len() % 32 == 0
            &&& p.0@.len() >= 288
            &&& parseable(p.0@)
            &&& accepts(label@, bits as nat, p.0@, p.1@)
        },
{
    let mut transcript = merlin::Transcript::new(label.as_bytes());
    let scalars: Vec<curve25519_dalek_ng::scalar::Scalar> = blindings
        .iter()
        .map(|b| curve25519_dalek_ng::scalar::Scalar::from_bytes_mod_order(*b))
        .collect();
    match bulletproofs::RangeProof::prove_multiple(bp, pc, &mut transcript, values, &scalars, bits)
    {
        Ok((proof, commitments)) => Ok((
            proof.to_bytes(),
            commitments.into_iter().map(|c| c.0).collect(),
        )),
        Err(e) => Err(e),
    }
}

/// Relies on `bulletproofs::RangeProof::from_bytes`, which rejects a buffer
/// whose length is not a multiple of 32 or too short for the seven fixed
/// elements and the two final inner-product scalars; on
/// `bulletproofs::RangeProof::verify_multiple`, which replays the
/// Fiat-Shamir transcript and accepts whenever the verification equations
/// hold for its drawn batching scalar — so in particular whenever they
/// hold for every batching scalar; on `merlin::Transcript::new` for the
/// fresh label-only transcript; and on the public
/// `curve25519_dalek_ng::ristretto::CompressedRistretto` constructor,
/// which wraps each 32-byte commitment as a compressed point.
#[verifier::external_body]
pub(crate) fn verify_serialized(
    bp: &bulletproofs::BulletproofGens,
    pc: &bulletproofs::PedersenGens,
    label: &'static str,
    bytes: &Vec<u8>,
    commitments: &Vec<[u8; 32]>,
    bits: usize,
) -> (r: bool)
    requires
        pedersen_is_default(*pc),
        bp_gens_bit_capacity(*bp) == bits as nat,
        bp_party_capacity(*bp) == commitments@.len(),
        bp_gens_points(*bp) == derived_gens_points(bits as nat, commitments@.len()),
    ensures
        bytes@.len() % 32 != 0 ==> r == false,
        bytes@.len() < 288 ==> r == false,
        r == true ==> parseable(bytes@),
        accepts(label@, bits as nat, bytes@, commitments@) ==> r == true,
{
    let mut transcript = merlin::Transcript::new(label.as_bytes());
    let proof = match bulletproofs::RangeProof::from_bytes(bytes) {
        Ok(p) => p,
        Err(_) => return false,
    };
    let points: Vec<curve25519_dalek_ng::ristretto::CompressedRistretto> = commitments
        .iter()
        .map(|b| curve25519_dalek_ng::ristretto::CompressedRistretto(*b))
        .collect();
    proof.verify_multiple(bp, pc, &mut transcript, &points, bits).is_ok()
}

} // verus!
