//! Shaping the inputs of the circuit.
//!
//! Leaf `i` (counted from 1) carries the field element `i`. How a leaf is laid
//! out depends on the hash function: Poseidon takes one field element per
//! leaf, the SHA-2 functions take a block of two, a zero followed by the leaf.

use vstd::prelude::*;
use crate::error::{no_leaves, require_leaves, ConfigError};
use crate::field::FieldElement;
use crate::hash::HashFunction;

verus! {

/// A value of the circuit's input, as the proving tools read it.
#[derive(Debug, PartialEq, Eq)]
pub enum WitnessValue {
    /// One field element.
    Scalar(FieldElement),
    /// A group of values that belong to one leaf, or the list of all leaves.
    Vector(Vec<WitnessValue>),
    /// The outermost container.
    Array(Vec<WitnessValue>),
}

/// Mathematical content of a `WitnessValue`.
pub enum WitnessTree {
    Scalar(nat),
    Vector(Seq<WitnessTree>),
    Array(Seq<WitnessTree>),
}

impl WitnessValue {
    /// The tree that the value stands for.
    pub open spec fn tree(self) -> WitnessTree
        decreases self,
    {
        match self {
            WitnessValue::Scalar(element) => WitnessTree::Scalar(element@),
            WitnessValue::Vector(items) => WitnessTree::Vector(
                Seq::new(
                    items@.len(),
                    |i: int|
                        if 0 <= i < items@.len() {
                            items@[i].tree()
                        } else {
                            WitnessTree::Scalar(0)
                        },
                ),
            ),
            WitnessValue::Array(items) => WitnessTree::Array(
                Seq::new(
                    items@.len(),
                    |i: int|
                        if 0 <= i < items@.len() {
                            items@[i].tree()
                        } else {
                            WitnessTree::Scalar(0)
                        },
                ),
            ),
        }
    }
}

impl View for WitnessValue {
    type V = WitnessTree;

    open spec fn view(&self) -> WitnessTree {
        self.tree()
    }
}

/// The entry of the leaf with the given number (counted from 1).
pub open spec fn leaf_entry(hash_function: HashFunction, number: nat) -> WitnessTree {
    match hash_function {
        HashFunction::Poseidon => WitnessTree::Scalar(number),
        _ => WitnessTree::Vector(seq![WitnessTree::Scalar(0), WitnessTree::Scalar(number)]),
    }
}

/// The private input for `leaf_count` leaves: one array that holds one vector
/// with an entry per leaf, in order.
pub open spec fn private_input(leaf_count: nat, hash_function: HashFunction) -> WitnessTree {
    WitnessTree::Array(
        seq![
            WitnessTree::Vector(
                Seq::new(leaf_count, |i: int| leaf_entry(hash_function, (i + 1) as nat)),
            ),
        ],
    )
}

/// The public input: an empty array, whatever the hash function.
pub open spec fn public_input() -> WitnessTree {
    WitnessTree::Array(Seq::empty())
}

/// What `encode` owes its caller.
pub open spec fn encode_result(
    leaf_count: usize,
    hash_function: HashFunction,
    result: Result<(WitnessValue, WitnessValue), ConfigError>,
) -> bool {
    if leaf_count == 0 {
        result is Err && result->Err_0 == no_leaves()
    } else {
        &&& result is Ok
        &&& result->Ok_0.0@ == private_input(leaf_count as nat, hash_function)
        &&& result->Ok_0.1@ == public_input()
    }
}

/// Builds the entry of one leaf.
pub fn encode_leaf(hash_function: HashFunction, number: u64) -> (entry: WitnessValue)
    ensures
        entry@ == leaf_entry(hash_function, number as nat),
{
    match hash_function {
        HashFunction::Poseidon => WitnessValue::Scalar(FieldElement::new(number)),
        _ => {
            let padding = WitnessValue::Scalar(FieldElement::new(0));
            let leaf = WitnessValue::Scalar(FieldElement::new(number));
            assert(padding@ == WitnessTree::Scalar(0));
            assert(leaf@ == WitnessTree::Scalar(number as nat));
            let mut block: Vec<WitnessValue> = Vec::new();
            block.push(padding);
            block.push(leaf);
            let entry = WitnessValue::Vector(block);
                    assert(entry@->Vector_0 =~= seq![
                WitnessTree::Scalar(0),
                WitnessTree::Scalar(number as nat),
            ]);
            entry
        },
    }
}

/// Builds the private and the public input for `leaf_count` leaves.
///
/// A leaf count of zero is rejected; every other count yields both inputs.
pub fn encode(leaf_count: usize, hash_function: HashFunction) -> (result: Result<
    (WitnessValue, WitnessValue),
    ConfigError,
>)
    ensures
        encode_result(leaf_count, hash_function, result),
{
    match require_leaves(leaf_count) {
        Err(e) => {
            return Err(e);
        },
        Ok(_) => {},
    }
    let mut entries: Vec<WitnessValue> = Vec::new();
    let mut done: usize = 0;
    while done < leaf_count
        invariant
            done <= leaf_count,
            entries@.len() == done,
            forall|i: int|
                0 <= i < done ==> (#[trigger] entries@[i])@ == leaf_entry(
                    hash_function,
                    (i + 1) as nat,
                ),
        decreases leaf_count - done,
    {
        entries.push(encode_leaf(hash_function, (done + 1) as u64));
        done = done + 1;
    }
    let leaves = WitnessValue::Vector(entries);
    assert(leaves@->Vector_0 =~= Seq::new(
        leaf_count as nat,
        |i: int| leaf_entry(hash_function, (i + 1) as nat),
    ));
    let mut outer: Vec<WitnessValue> = Vec::new();
    outer.push(leaves);
    let private = WitnessValue::Array(outer);
    assert(private@->Array_0 =~= seq![leaves@]);
    let public = WitnessValue::Array(Vec::new());
    assert(public@->Array_0 =~= Seq::<WitnessTree>::empty());
    Ok((private, public))
}

/// Encoding is a function of its inputs: two results for the same leaf count
/// and hash function are the same error or hold the same trees.
pub proof fn lemma_encode_deterministic(
    leaf_count: usize,
    hash_function: HashFunction,
    first: Result<(WitnessValue, WitnessValue), ConfigError>,
    second: Result<(WitnessValue, WitnessValue), ConfigError>,
)
    requires
        encode_result(leaf_count, hash_function, first),
        encode_result(leaf_count, hash_function, second),
    ensures
        first is Ok <==> second is Ok,
        first is Ok ==> first->Ok_0.0@ == second->Ok_0.0@ && first->Ok_0.1@ == second->Ok_0.1@,
        first is Err ==> first->Err_0 == second->Err_0,
{
}

} // verus!

