//! The hash functions a circuit can be built around.

use vstd::prelude::*;

verus! {

/// A hash function the circuit template knows how to instantiate.
#[derive(Clone, Copy, Debug, PartialEq, Eq, Structural)]
pub enum HashFunction {
    Poseidon,
    Sha2_256,
    Sha2_512,
}

impl HashFunction {
    /// The identifier under which the circuit template finds the backend.
    pub open spec fn backend_id_spec(self) -> Seq<char> {
        match self {
            HashFunction::Poseidon => "hashes::poseidon"@,
            HashFunction::Sha2_256 => "hashes::sha2<256>"@,
            HashFunction::Sha2_512 => "hashes::sha2<512>"@,
        }
    }

    /// The lower-case name by which a user selects the function.
    pub open spec fn name_spec(self) -> Seq<char> {
        match self {
            HashFunction::Poseidon => "poseidon"@,
            HashFunction::Sha2_256 => "sha2_256"@,
            HashFunction::Sha2_512 => "sha2_512"@,
        }
    }

    /// Returns the backend identifier, to be handed on verbatim.
    pub fn backend_id(&self) -> (id: String)
        ensures
            id@ == self.backend_id_spec(),
    {
        match self {
            HashFunction::Poseidon => "hashes::poseidon".to_owned(),
            HashFunction::Sha2_256 => "hashes::sha2<256>".to_owned(),
            HashFunction::Sha2_512 => "hashes::sha2<512>".to_owned(),
        }
    }

    /// Returns the lower-case name of the function.
    pub fn name(&self) -> (name: String)
        ensures
            name@ == self.name_spec(),
    {
        match self {
            HashFunction::Poseidon => "poseidon".to_owned(),
            HashFunction::Sha2_256 => "sha2_256".to_owned(),
            HashFunction::Sha2_512 => "sha2_512".to_owned(),
        }
    }
}

impl Default for HashFunction {
    fn default() -> (h: HashFunction)
        ensures
            h == HashFunction::Poseidon,
    {
        HashFunction::Poseidon
    }
}

} // verus!
