//! Non-interactive zero-knowledge range proofs over committed values.
//!
//! The crate drives the bulletproofs range-proof protocol: it validates and
//! pads caller-supplied witnesses, derives the public generators, builds a
//! domain-separated transcript, runs the prover, and hands the serialized
//! proof back as an owned byte buffer together with the per-witness
//! commitments.

use vstd::prelude::*;

pub mod engine;
pub mod error;
pub mod generators;
pub mod pipeline;
pub mod witness;

pub use error::RangeProofError;
pub use pipeline::{ProofBundle, prove_multiple, prove_single, prove_with_bits, verify_proof};

verus! {

} // verus!
