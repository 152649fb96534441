//! The proof pipeline: validation, padding, generator construction,
//! transcript setup, proving, and marshalling into an owned buffer.
//!
//! Input validation happens strictly before any generator is built or any
//! randomness is drawn, and each failure is reported as a value, never as a
//! panic or an abort.

use vstd::prelude::*;
use crate::error::RangeProofError;
use crate::witness::{
    MAX_AGGREGATION, adapt, all_fit, fits_bits, lemma_log2_64, lemma_native_width_always_fits,
    log2, valid_bitsize,
};
use crate::generators::generators;
use crate::engine::{accepts, commitment_of, parseable, prove_range_serialized, verify_serialized};
use vstd::arithmetic::power2::is_pow2;

verus! {

/// The outcome of a successful proof call: the serialized proof as an owned
/// buffer, one commitment per (possibly padded) witness, and how many of
/// the commitments belong to the caller's own witnesses.
///
/// The buffer and the commitments are owned by the bundle alone; the
/// pipeline keeps no alias into them, so the caller may mutate or drop them
/// freely without affecting any later call.
pub struct ProofBundle {
    /// The serialized proof, in the protocol's canonical byte layout.
    pub bytes: Vec<u8>,
    /// One 32-byte compressed commitment per witness of the padded vector,
    /// in witness order.
    pub commitments: Vec<[u8; 32]>,
    /// How many leading commitments correspond to the caller's witnesses.
    /// The rest belong to zero-valued padding: the caller may disregard
    /// them when reading off its own commitments, but `verify_proof` takes
    /// the full list, padding included.
    pub effective: usize,
}

impl ProofBundle {
    /// The bundle's internal consistency: the caller's witnesses are a
    /// prefix of the padded vector the commitments were made for.
    pub open spec fn wf(self) -> bool {
        self.effective <= self.commitments@.len()
    }

    /// The commitments for the caller's own witnesses, without the ones
    /// added for padding.
    pub fn real_commitments(&self) -> (r: Vec<[u8; 32]>)
        requires
            self.wf(),
        ensures
            r@ == self.commitments@.take(self.effective as int),
    {
        let mut out: Vec<[u8; 32]> = Vec::new();
        let mut i: usize = 0;
        while i < self.effective
            invariant
                i <= self.effective <= self.commitments@.len(),
                out@.len() == i,
                forall|j: int| 0 <= j < i ==> out@[j] == self.commitments@[j],
            decreases self.effective - i,
        {
            out.push(self.commitments[i]);
            i = i + 1;
        }
        proof {
            assert(out@ =~= self.commitments@.take(self.effective as int));
        }
        out
    }
}

/// Proves that every witness value lies in `[0, 2^bits)`, for any supported
/// bit-width, padding the witness count up to a power of two.
///
/// Exactly one of the following holds, decided in this order:
/// - the two vectors differ in length: `ShapeMismatch`;
/// - some value needs more than `bits` bits: `RangeViolation`;
/// - the count is zero or above `MAX_AGGREGATION`, so padding cannot reach
///   a supported size: `AggregationSizeViolation`;
/// - `bits` is not one of {8, 16, 32, 64}: `Protocol`;
/// - otherwise the call succeeds.
///
/// The first three are found before any generator is built or any
/// randomness is drawn, the fourth before any generator is built.
pub fn prove_with_bits(values: &Vec<u64>, blindings: &Vec<[u8; 32]>, bits: usize) -> (r: Result<
    ProofBundle,
    RangeProofError,
>)
    ensures
        (r matches Err(RangeProofError::ShapeMismatch)) <==> values@.len() != blindings@.len(),
        (r matches Err(RangeProofError::RangeViolation)) <==> (values@.len() == blindings@.len()
            && !all_fit(values@, bits as nat)),
        (r matches Err(RangeProofError::AggregationSizeViolation)) <==> (values@.len()
            == blindings@.len() && all_fit(values@, bits as nat) && (values@.len() == 0
            || values@.len() > MAX_AGGREGATION)),
        (r matches Err(RangeProofError::Protocol)) <==> (values@.len() == blindings@.len()
            && all_fit(values@, bits as nat) && 1 <= values@.len() <= MAX_AGGREGATION
            && !valid_bitsize(bits as nat)),
        r is Ok <==> (values@.len() == blindings@.len() && all_fit(values@, bits as nat) && 1
            <= values@.len() <= MAX_AGGREGATION && valid_bitsize(bits as nat)),
        r matches Ok(b) ==> {
            &&& b.wf()
            &&& b.effective == values@.len()
            &&& is_pow2(b.commitments@.len() as int)
            &&& b.effective <= b.commitments@.len() < 2 * b.effective
            &&& forall|i: int|
                0 <= i < values@.len() ==> b.commitments@[i] == commitment_of(
                    values@[i],
                    blindings@[i],
                )
            &&& b.bytes@.len() == 32 * (9 + 2 * log2(bits as nat * b.commitments@.len()))
            &&& b.bytes@.len() % 32 == 0
            &&& b.bytes@.len() >= 288
            &&& parseable(b.bytes@)
            &&& accepts("rangeproof"@, bits as nat, b.bytes@, b.commitments@)
        },
{
    let (padded_values, padded_blindings, effective) = match adapt(values, blindings, bits) {
        Ok(t) => t,
        Err(e) => {
            return Err(e);
        },
    };
    if !(bits == 8 || bits == 16 || bits == 32 || bits == 64) {
        return Err(RangeProofError::Protocol);
    }
    let (pc, bp) = generators(bits, padded_values.len());
    match prove_range_serialized(&bp, &pc, "rangeproof", &padded_values, &padded_blindings, bits) {
        Ok((bytes, commitments)) => Ok(ProofBundle { bytes, commitments, effective }),
        Err(_) => Err(RangeProofError::Protocol),
    }
}

/// Proves that every witness value lies in `[0, 2^64)` — the crate's native
/// configuration.  A `RangeViolation` is impossible here by construction:
/// the witness type is exactly 64 bits wide.
pub fn prove_multiple(values: &Vec<u64>, blindings: &Vec<[u8; 32]>) -> (r: Result<
    ProofBundle,
    RangeProofError,
>)
    ensures
        (r matches Err(RangeProofError::ShapeMismatch)) <==> values@.len() != blindings@.len(),
        (r matches Err(RangeProofError::AggregationSizeViolation)) <==> (values@.len()
            == blindings@.len() && (values@.len() == 0 || values@.len() > MAX_AGGREGATION)),
        !(r matches Err(RangeProofError::RangeViolation)),
        !(r matches Err(RangeProofError::Protocol)),
        r is Ok <==> (values@.len() == blindings@.len() && 1 <= values@.len() <= MAX_AGGREGATION),
        r matches Ok(b) ==> {
            &&& b.wf()
            &&& b.effective == values@.len()
            &&& is_pow2(b.commitments@.len() as int)
            &&& b.effective <= b.commitments@.len() < 2 * b.effective
            &&& forall|i: int|
                0 <= i < values@.len() ==> b.commitments@[i] == commitment_of(
                    values@[i],
                    blindings@[i],
                )
            &&& b.bytes@.len() == 32 * (9 + 2 * log2(64 * b.commitments@.len()))
            &&& b.bytes@.len() % 32 == 0
            &&& b.bytes@.len() >= 288
            &&& parseable(b.bytes@)
            &&& accepts("rangeproof"@, 64, b.bytes@, b.commitments@)
        },
{
    proof {
        assert forall|i: int| 0 <= i < values@.len() implies fits_bits(values@[i], 64) by {
            lemma_native_width_always_fits(values@[i]);
        }
    }
    prove_with_bits(values, blindings, 64)
}

/// Proves that one witness value lies in `[0, 2^64)`.  A single witness
/// needs no padding, so the call always succeeds and returns exactly one
/// commitment, and the buffer's length is the same constant — 672 bytes —
/// whatever the witness value and blinding material were.
pub fn prove_single(value: u64, blinding: [u8; 32]) -> (r: Result<ProofBundle, RangeProofError>)
    ensures
        r is Ok,
        r matches Ok(b) ==> {
            &&& b.wf()
            &&& b.effective == 1
            &&& b.commitments@.len() == 1
            &&& b.commitments@[0] == commitment_of(value, blinding)
            &&& b.bytes@.len() == 672
            &&& accepts("rangeproof"@, 64, b.bytes@, b.commitments@)
        },
{
    let mut values: Vec<u64> = Vec::new();
    values.push(value);
    let mut blindings: Vec<[u8; 32]> = Vec::new();
    blindings.push(blinding);
    let r = prove_multiple(&values, &blindings);
    proof {
        lemma_log2_64();
    }
    r
}

/// Checks a serialized proof against the full commitment list it was
/// produced with — padding commitments included — at the crate's native
/// 64-bit width.  It accepts exactly the byte layout the proving calls
/// emit: every bundle a proving call returns is accepted here, a buffer
/// whose length is not a multiple of 32 or shorter than nine 32-byte
/// elements is always rejected, and a `true` answer is only ever given to
/// a buffer that parses as a proof.
pub fn verify_proof(bytes: &Vec<u8>, commitments: &Vec<[u8; 32]>) -> (r: bool)
    ensures
        bytes@.len() % 32 != 0 ==> r == false,
        bytes@.len() < 288 ==> r == false,
        r == true ==> parseable(bytes@),
        accepts("rangeproof"@, 64, bytes@, commitments@) ==> r == true,
{
    let (pc, bp) = generators(64, commitments.len());
    verify_serialized(&bp, &pc, "rangeproof", bytes, commitments, 64)
}

} // verus!
