//! The generator registry: fixed public parameters for a given bit-width and
//! aggregation count.
//!
//! The parameters are two generator sets of the bulletproofs crate: a single
//! Pedersen commitment generator pair and a vector generator set sized to
//! `(bits, count)`.  Both are derived deterministically, hold no secret
//! state, and are safe to rebuild or share across calls.

use vstd::prelude::*;

verus! {

#[verifier::external_type_specification]
#[verifier::external_body]
pub struct ExPedersenGens(bulletproofs::PedersenGens);

#[verifier::external_type_specification]
#[verifier::external_body]
pub struct ExBulletproofGens(bulletproofs::BulletproofGens);

/// How many generators the set precomputed per party (the `gens_capacity`
/// field the set was built with).
pub uninterp spec fn bp_gens_bit_capacity(g: bulletproofs::BulletproofGens) -> nat;

/// How many parties the set can serve (the `party_capacity` field the set
/// was built with).
pub uninterp spec fn bp_party_capacity(g: bulletproofs::BulletproofGens) -> nat;

/// The points a vector generator set holds, each in compressed 32-byte form,
/// in the set's own order.
pub uninterp spec fn bp_gens_points(g: bulletproofs::BulletproofGens) -> Seq<Seq<u8>>;

/// The points that vector generator derivation yields for `(bits, count)`:
/// a fixed hash-to-group chain, a function of its arguments alone.
pub uninterp spec fn derived_gens_points(bits: nat, count: nat) -> Seq<Seq<u8>>;

/// The two points of a Pedersen generator pair, each in compressed 32-byte
/// form: the value base, then the blinding base.
pub uninterp spec fn pedersen_points(g: bulletproofs::PedersenGens) -> Seq<Seq<u8>>;

/// Whether a Pedersen pair is the default pair: the ristretto255 basepoint
/// as value base and its fixed SHA3-512 hash-to-group companion as
/// blinding base.
pub uninterp spec fn pedersen_is_default(g: bulletproofs::PedersenGens) -> bool;

/// Relies on `bulletproofs::PedersenGens::default`: it always builds the
/// same two points — the ristretto255 basepoint and the SHA3-512
/// hash-to-group image of its encoding — so every default pair holds
/// points bit-identical to the returned one.
#[verifier::external_body]
fn pedersen_default() -> (r: bulletproofs::PedersenGens)
    ensures
        pedersen_is_default(r),
        forall|g: bulletproofs::PedersenGens| pedersen_is_default(g) ==> #[trigger] pedersen_points(
            g,
        ) == pedersen_points(r),
{
    bulletproofs::PedersenGens::default()
}

/// Relies on `bulletproofs::BulletproofGens::new`: builds the vector
/// generator set for `(bits, count)` by a deterministic SHAKE256
/// hash-to-group chain keyed only on the party index, and records the two
/// capacities it was built with.
#[verifier::external_body]
fn bp_gens_new(bits: usize, count: usize) -> (r: bulletproofs::BulletproofGens)
    ensures
        bp_gens_bit_capacity(r) == bits as nat,
        bp_party_capacity(r) == count as nat,
        bp_gens_points(r) == derived_gens_points(bits as nat, count as nat),
{
    bulletproofs::BulletproofGens::new(bits, count)
}

/// Produces the fixed public parameters for `(bits, count)`: deterministic,
/// side-effect-free, total for any pair of counts.  Idempotence of the
/// Pedersen half is stated here directly: every default pair, in this call
/// or any other, holds points identical to the returned one.
pub fn generators(bits: usize, count: usize) -> (r: (
    bulletproofs::PedersenGens,
    bulletproofs::BulletproofGens,
))
    ensures
        pedersen_is_default(r.0),
        forall|g: bulletproofs::PedersenGens| pedersen_is_default(g) ==> #[trigger] pedersen_points(
            g,
        ) == pedersen_points(r.0),
        bp_gens_bit_capacity(r.1) == bits as nat,
        bp_party_capacity(r.1) == count as nat,
        bp_gens_points(r.1) == derived_gens_points(bits as nat, count as nat),
{
    (pedersen_default(), bp_gens_new(bits, count))
}

/// Idempotence of the generator registry: any two vector generator sets
/// derived for the same `(bits, count)` pair hold identical points.
pub proof fn lemma_generators_idempotent(
    g1: bulletproofs::BulletproofGens,
    g2: bulletproofs::BulletproofGens,
    bits: nat,
    count: nat,
)
    ensures
        (bp_gens_points(g1) == derived_gens_points(bits, count) && bp_gens_points(g2)
            == derived_gens_points(bits, count)) ==> bp_gens_points(g1) == bp_gens_points(g2),
{
}

/// Idempotence of the registry's Pedersen half: relative to any pair known
/// to hold the default points, two default pairs hold identical points.
pub proof fn lemma_pedersen_idempotent(
    anchor: bulletproofs::PedersenGens,
    g1: bulletproofs::PedersenGens,
    g2: bulletproofs::PedersenGens,
)
    ensures
        (pedersen_is_default(g1) && pedersen_is_default(g2) && (forall|
            g: bulletproofs::PedersenGens,
        |
            pedersen_is_default(g) ==> #[trigger] pedersen_points(g) == pedersen_points(anchor)))
            ==> pedersen_points(g1) == pedersen_points(g2),
{
}

} // verus!
