//! Names of the files that one run writes.

use vstd::prelude::*;
use vstd::string::StringExecFns;

verus! {

/// The names of the three files written for one circuit.
#[derive(Debug, PartialEq, Eq)]
pub struct ArtifactNames {
    /// The circuit source.
    pub circuit: String,
    /// The private input.
    pub private_input: String,
    /// The public input.
    pub public_input: String,
}

/// Names the files after the circuit's base name: `<base>.cpp` for the
/// source, `<base>_private.inp` and `<base>_public.inp` for the inputs.
pub fn artifact_names(base: &str) -> (names: ArtifactNames)
    ensures
        names.circuit@ == base@ + ".cpp"@,
        names.private_input@ == base@ + "_private.inp"@,
        names.public_input@ == base@ + "_public.inp"@,
{
    ArtifactNames {
        circuit: base.to_owned().concat(".cpp"),
        private_input: base.to_owned().concat("_private.inp"),
        public_input: base.to_owned().concat("_public.inp"),
    }
}

} // verus!
