//! Why a request is turned down before any work starts.

use vstd::prelude::*;

verus! {

/// The input that a rejected request got wrong.
#[derive(Clone, Copy, Debug, PartialEq, Eq, Structural)]
pub enum Parameter {
    /// The total number of leaves.
    Leaves,
    /// The number of leaves one prover can take per stage.
    ProverCapacity,
}

/// A request that cannot be served.
#[derive(Clone, Copy, Debug, PartialEq, Eq, Structural)]
pub enum ConfigError {
    /// A parameter is outside its domain: fewer than two leaves per prover, or
    /// no leaves at all. `value` is what was given.
    InvalidConfiguration { parameter: Parameter, value: usize },
}

/// The error owed for a capacity below two.
pub open spec fn bad_capacity(capacity: usize) -> ConfigError {
    ConfigError::InvalidConfiguration { parameter: Parameter::ProverCapacity, value: capacity }
}

/// The error owed for an empty set of leaves.
pub open spec fn no_leaves() -> ConfigError {
    ConfigError::InvalidConfiguration { parameter: Parameter::Leaves, value: 0 }
}

/// What is wrong with a pair of leaf count and capacity, if anything. The
/// capacity is looked at first.
pub open spec fn rejection(leaves: usize, capacity: usize) -> Option<ConfigError> {
    if capacity < 2 {
        Some(bad_capacity(capacity))
    } else if leaves == 0 {
        Some(no_leaves())
    } else {
        None
    }
}

/// Accepts a leaf count unless it is zero.
pub fn require_leaves(leaves: usize) -> (result: Result<(), ConfigError>)
    ensures
        leaves == 0 ==> result == Err::<(), ConfigError>(no_leaves()),
        leaves != 0 ==> result == Ok::<(), ConfigError>(()),
{
    if leaves == 0 {
        Err(ConfigError::InvalidConfiguration { parameter: Parameter::Leaves, value: 0 })
    } else {
        Ok(())
    }
}

/// Accepts a leaf count and a capacity unless `rejection` finds fault.
pub fn validate(leaves: usize, capacity: usize) -> (result: Result<(), ConfigError>)
    ensures
        result == match rejection(leaves, capacity) {
            Some(e) => Err::<(), ConfigError>(e),
            None => Ok::<(), ConfigError>(()),
        },
{
    if capacity < 2 {
        Err(
            ConfigError::InvalidConfiguration {
                parameter: Parameter::ProverCapacity,
                value: capacity,
            },
        )
    } else {
        require_leaves(leaves)
    }
}

} // verus!
