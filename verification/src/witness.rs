//! Witness validation and padding: the adapter between caller-supplied raw
//! material and the shape the proof engine accepts.
//!
//! The adapter checks that witnesses and blinding blocks come in equal
//! numbers, that every witness value fits the configured bit-width, and pads
//! a non-power-of-two witness count up to the next power of two with
//! zero-valued witnesses and freshly drawn blinding material.

use vstd::prelude::*;
use vstd::arithmetic::power2::{
    pow2, is_pow2, lemma2_to64_rest, lemma_pow2_strictly_increases,
};
use vstd::bits::lemma_u64_shl_is_mul;
use crate::error::RangeProofError;

verus! {

/// Largest aggregation count the pipeline accepts after padding.
pub const MAX_AGGREGATION: usize = 1024;

/// The bit-widths the underlying range-proof protocol supports.
pub open spec fn valid_bitsize(bits: nat) -> bool {
    bits == 8 || bits == 16 || bits == 32 || bits == 64
}

/// A witness value is provable in `bits` bits when it lies in `[0, 2^bits)`.
pub open spec fn fits_bits(value: u64, bits: nat) -> bool {
    (value as nat) < pow2(bits)
}

/// Every value of the vector lies in the configured range.
pub open spec fn all_fit(values: Seq<u64>, bits: nat) -> bool {
    forall|i: int| 0 <= i < values.len() ==> fits_bits(values[i], bits)
}

/// The floor of the base-two logarithm; on a power of two, its exact
/// exponent.  The serialized size of a proof is stated over it.
pub open spec fn log2(n: nat) -> nat
    decreases n,
{
    if n <= 1 {
        0
    } else {
        1 + log2(n / 2)
    }
}

/// The exponent of the native width: 2^6 bits make 64.
pub proof fn lemma_log2_64()
    ensures
        log2(64) == 6,
{
    assert(log2(1) == 0);
    assert(log2(2) == 1);
    assert(log2(4) == 2);
    assert(log2(8) == 3);
    assert(log2(16) == 4);
    assert(log2(32) == 5);
    assert(log2(64) == 6);
}

/// At the native 64-bit width no witness value can be out of range.
pub proof fn lemma_native_width_always_fits(value: u64)
    ensures
        fits_bits(value, 64),
{
    lemma2_to64_rest();
}

/// Decides `fits_bits` for any requested width.
pub fn fits_in_bits(value: u64, bits: usize) -> (r: bool)
    ensures
        r == fits_bits(value, bits as nat),
{
    if bits >= 64 {
        proof {
            lemma2_to64_rest();
            if bits > 64 {
                lemma_pow2_strictly_increases(64, bits as nat);
            }
        }
        true
    } else {
        proof {
            lemma_pow2_strictly_increases(bits as nat, 64);
            lemma2_to64_rest();
            lemma_u64_shl_is_mul(1u64, bits as u64);
        }
        let threshold: u64 = 1u64 << (bits as u64);
        value < threshold
    }
}

/// Decides `all_fit` for a whole witness vector.
pub fn all_values_fit(values: &Vec<u64>, bits: usize) -> (r: bool)
    ensures
        r == all_fit(values@, bits as nat),
{
    let mut i: usize = 0;
    while i < values.len()
        invariant
            i <= values@.len(),
            forall|j: int| 0 <= j < i ==> fits_bits(values@[j], bits as nat),
        decreases values@.len() - i,
    {
        if !fits_in_bits(values[i], bits) {
            return false;
        }
        i = i + 1;
    }
    true
}

/// The smallest power of two that is at least `n`; it is unique in `[n, 2n)`.
pub fn next_pow2(n: usize) -> (r: usize)
    requires
        1 <= n <= MAX_AGGREGATION,
    ensures
        is_pow2(r as int),
        n <= r < 2 * n,
{
    let mut p: usize = 1;
    proof {
        reveal(is_pow2);
        assert(is_pow2(1int));
    }
    while p < n
        invariant
            1 <= p < 2 * n,
            n <= MAX_AGGREGATION,
            is_pow2(p as int),
        decreases 2 * n - p,
    {
        proof {
            reveal(is_pow2);
            assert(is_pow2((2 * p) as int));
        }
        p = p * 2;
    }
    p
}

/// Relies on `rand::random`: draws a value of the requested type from the
/// thread-local generator; nothing is promised of the result.
pub assume_specification<T>[ rand::random::<T> ]() -> (r: T)
    where
        rand::distributions::Standard: rand::distributions::Distribution<T>,
;

/// Extends the witness vector to `target` entries with zero-valued
/// witnesses, leaving the caller's values in place.
pub fn pad_values(values: &Vec<u64>, target: usize) -> (r: Vec<u64>)
    requires
        values@.len() <= target,
    ensures
        r@.len() == target as nat,
        forall|i: int| 0 <= i < values@.len() ==> r@[i] == values@[i],
        forall|i: int| values@.len() <= i < target ==> r@[i] == 0u64,
{
    let mut out: Vec<u64> = Vec::new();
    let mut i: usize = 0;
    while i < values.len()
        invariant
            i <= values@.len(),
            out@.len() == i,
            forall|j: int| 0 <= j < i ==> out@[j] == values@[j],
        decreases values@.len() - i,
    {
        out.push(values[i]);
        i = i + 1;
    }
    while out.len() < target
        invariant
            values@.len() <= out@.len() <= target,
            forall|j: int| 0 <= j < values@.len() ==> out@[j] == values@[j],
            forall|j: int| values@.len() <= j < out@.len() ==> out@[j] == 0u64,
        decreases target - out@.len(),
    {
        out.push(0u64);
    }
    out
}

/// Extends the blinding vector to `target` entries with freshly drawn
/// 32-byte blocks, leaving the caller's blocks in place.
pub fn pad_blindings(blindings: &Vec<[u8; 32]>, target: usize) -> (r: Vec<[u8; 32]>)
    requires
        blindings@.len() <= target,
    ensures
        r@.len() == target as nat,
        forall|i: int| 0 <= i < blindings@.len() ==> r@[i] == blindings@[i],
{
    let mut out: Vec<[u8; 32]> = Vec::new();
    let mut i: usize = 0;
    while i < blindings.len()
        invariant
            i <= blindings@.len(),
            out@.len() == i,
            forall|j: int| 0 <= j < i ==> out@[j] == blindings@[j],
        decreases blindings@.len() - i,
    {
        out.push(blindings[i]);
        i = i + 1;
    }
    while out.len() < target
        invariant
            blindings@.len() <= out@.len() <= target,
            forall|j: int| 0 <= j < blindings@.len() ==> out@[j] == blindings@[j],
        decreases target - out@.len(),
    {
        out.push(rand::random::<[u8; 32]>());
    }
    out
}

/// Validates the raw witness material and converts it to the shape the
/// proof engine accepts: a power-of-two number of witnesses, values and
/// blinding blocks in equal number, every value within `[0, 2^bits)`.
///
/// Exactly one of the following holds, decided in this order and before any
/// randomness is drawn:
/// - the two vectors differ in length: `ShapeMismatch`;
/// - some value needs more than `bits` bits: `RangeViolation`;
/// - the count is zero or above `MAX_AGGREGATION`, so padding cannot reach
///   a supported size: `AggregationSizeViolation`;
/// - otherwise the vectors come back padded to the next power of two — the
///   values with zeros, the blindings with freshly drawn blocks — together
///   with the effective count, the number of leading entries that are the
///   caller's own.
pub fn adapt(values: &Vec<u64>, blindings: &Vec<[u8; 32]>, bits: usize) -> (r: Result<
    (Vec<u64>, Vec<[u8; 32]>, usize),
    RangeProofError,
>)
    ensures
        (r matches Err(RangeProofError::ShapeMismatch)) <==> values@.len() != blindings@.len(),
        (r matches Err(RangeProofError::RangeViolation)) <==> (values@.len() == blindings@.len()
            && !all_fit(values@, bits as nat)),
        (r matches Err(RangeProofError::AggregationSizeViolation)) <==> (values@.len()
            == blindings@.len() && all_fit(values@, bits as nat) && (values@.len() == 0
            || values@.len() > MAX_AGGREGATION)),
        r is Ok <==> (values@.len() == blindings@.len() && all_fit(values@, bits as nat) && 1
            <= values@.len() <= MAX_AGGREGATION),
        r matches Ok(t) ==> {
            &&& t.2 == values@.len()
            &&& t.0@.len() == t.1@.len()
            &&& is_pow2(t.0@.len() as int)
            &&& values@.len() <= t.0@.len() < 2 * values@.len()
            &&& all_fit(t.0@, bits as nat)
            &&& forall|i: int| 0 <= i < values@.len() ==> t.0@[i] == values@[i]
            &&& forall|i: int| values@.len() <= i < t.0@.len() ==> t.0@[i] == 0u64
            &&& forall|i: int| 0 <= i < blindings@.len() ==> t.1@[i] == blindings@[i]
        },
{
    if values.len() != blindings.len() {
        return Err(RangeProofError::ShapeMismatch);
    }
    if !all_values_fit(values, bits) {
        return Err(RangeProofError::RangeViolation);
    }
    if values.len() == 0 || values.len() > MAX_AGGREGATION {
        return Err(RangeProofError::AggregationSizeViolation);
    }
    let padded = next_pow2(values.len());
    let padded_values = pad_values(values, padded);
    let padded_blindings = pad_blindings(blindings, padded);
    proof {
        assert forall|i: int| 0 <= i < padded_values@.len() implies fits_bits(
            padded_values@[i],
            bits as nat,
        ) by {
            if i >= values@.len() {
                vstd::arithmetic::power2::lemma_pow2_pos(bits as nat);
            }
        }
    }
    Ok((padded_values, padded_blindings, values.len()))
}

} // verus!
