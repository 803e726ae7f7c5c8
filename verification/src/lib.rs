//! Parameters and witness data for exercising a zero-knowledge circuit that is
//! split over several cooperating provers.
//!
//! The crate plans how a set of leaves is reduced stage by stage until one
//! prover can hold what is left, names the hash backend a circuit template
//! should use, and shapes the private and public inputs of the circuit.

pub mod artifact;
pub mod document;
pub mod error;
pub mod field;
pub mod hash;
pub mod plan;
pub mod witness;
