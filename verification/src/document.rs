//! The input files' structure.
//!
//! An input file is a tree of lists, text and objects with a single key. This
//! module decides which of them stands for which witness value and under
//! which key; turning the tree into characters is left to a printer.

use vstd::prelude::*;
use crate::field::canonical_text;
use crate::hash::HashFunction;
use crate::witness::{leaf_entry, private_input, public_input, WitnessTree, WitnessValue};

verus! {

/// A node of an input file.
#[derive(Debug, PartialEq, Eq)]
pub enum Document {
    /// A string.
    Text(String),
    /// An ordered list.
    List(Vec<Document>),
    /// An object with one key and the value under it.
    Tagged(String, Box<Document>),
}

/// Mathematical content of a `Document`.
pub enum DocumentTree {
    Text(Seq<char>),
    List(Seq<DocumentTree>),
    Tagged(Seq<char>, Box<DocumentTree>),
}

impl Document {
    /// The tree that the node stands for.
    pub open spec fn tree(self) -> DocumentTree
        decreases self,
    {
        match self {
            Document::Text(text) => DocumentTree::Text(text@),
            Document::List(items) => DocumentTree::List(
                Seq::new(
                    items@.len(),
                    |i: int|
                        if 0 <= i < items@.len() {
                            items@[i].tree()
                        } else {
                            DocumentTree::List(Seq::empty())
                        },
                ),
            ),
            Document::Tagged(key, content) => DocumentTree::Tagged(
                key@,
                Box::new((*content).tree()),
            ),
        }
    }
}

impl View for Document {
    type V = DocumentTree;

    open spec fn view(&self) -> DocumentTree {
        self.tree()
    }
}

/// The key under which a vector is filed: `array` for the vector that groups
/// all leaves, directly inside the outermost array, and `vector` for any other.
pub open spec fn vector_key(grouping: bool) -> Seq<char> {
    if grouping {
        "array"@
    } else {
        "vector"@
    }
}

/// The object that files the canonical text of the field element `value` under
/// `field`.
pub open spec fn field_node(value: nat) -> DocumentTree {
    DocumentTree::Tagged("field"@, Box::new(DocumentTree::Text(canonical_text(value))))
}

/// The node of the leaf with the given number: its `field` object for
/// Poseidon, and for the SHA-2 functions a `vector` object over the `field`
/// objects of zero and of the number.
pub open spec fn leaf_node(hash_function: HashFunction, number: nat) -> DocumentTree {
    match hash_function {
        HashFunction::Poseidon => field_node(number),
        _ => DocumentTree::Tagged(
            "vector"@,
            Box::new(DocumentTree::List(seq![field_node(0), field_node(number)])),
        ),
    }
}

/// The node that stands for a witness value. `grouping` says whether the value
/// stands directly inside an array.
///
/// A scalar is an object that files the element's canonical text under
/// `field`. A vector is an object that files the list of its entries under
/// its key. An array is the bare list of its entries.
pub open spec fn rendered(tree: WitnessTree, grouping: bool) -> DocumentTree
    decreases tree,
{
    match tree {
        WitnessTree::Scalar(value) => field_node(value),
        WitnessTree::Vector(items) => DocumentTree::Tagged(
            vector_key(grouping),
            Box::new(
                DocumentTree::List(
                    Seq::new(
                        items.len(),
                        |i: int|
                            if 0 <= i < items.len() {
                                rendered(items[i], false)
                            } else {
                                DocumentTree::List(Seq::empty())
                            },
                    ),
                ),
            ),
        ),
        WitnessTree::Array(items) => DocumentTree::List(
            Seq::new(
                items.len(),
                |i: int|
                    if 0 <= i < items.len() {
                        rendered(items[i], true)
                    } else {
                        DocumentTree::List(Seq::empty())
                    },
            ),
        ),
    }
}

/// A leaf's entry is filed as its leaf node.
pub proof fn lemma_leaf_rendering(hash_function: HashFunction, number: nat)
    ensures
        rendered(leaf_entry(hash_function, number), false) == leaf_node(hash_function, number),
{
    if hash_function != HashFunction::Poseidon {
        let block = seq![WitnessTree::Scalar(0), WitnessTree::Scalar(number)];
        assert(rendered(block[0], false) == field_node(0));
        assert(rendered(block[1], false) == field_node(number));
        assert(rendered(leaf_entry(hash_function, number), false)->Tagged_1->List_0 =~= seq![
            field_node(0),
            field_node(number),
        ]);
    }
}

/// The file of a private input is a list with one `array` object, and under
/// that object stand the leaf nodes of the leaves 1, 2, and so on, in order.
/// For Poseidon these are `leaf_count` `field` objects whose texts are those of
/// the numbers from 1 to `leaf_count`.
pub proof fn lemma_private_file(leaf_count: nat, hash_function: HashFunction)
    ensures
        rendered(private_input(leaf_count, hash_function), false) == DocumentTree::List(
            seq![
                DocumentTree::Tagged(
                    "array"@,
                    Box::new(
                        DocumentTree::List(
                            Seq::new(leaf_count, |i: int| leaf_node(hash_function, (i + 1) as nat)),
                        ),
                    ),
                ),
            ],
        ),
{
    let entries = Seq::new(leaf_count, |i: int| leaf_entry(hash_function, (i + 1) as nat));
    let group = WitnessTree::Vector(entries);
    let nodes = Seq::new(leaf_count, |i: int| leaf_node(hash_function, (i + 1) as nat));
    assert forall|i: int| 0 <= i < leaf_count implies rendered(entries[i], false) == nodes[i] by {
        lemma_leaf_rendering(hash_function, (i + 1) as nat);
    }
    assert(rendered(group, true)->Tagged_1->List_0 =~= nodes);
    assert(rendered(group, true) == DocumentTree::Tagged(
        "array"@,
        Box::new(DocumentTree::List(nodes)),
    ));
    assert(private_input(leaf_count, hash_function)->Array_0 =~= seq![group]);
    assert(rendered(private_input(leaf_count, hash_function), false)->List_0 =~= seq![
        rendered(group, true),
    ]);
}

/// The file of a public input is the empty list.
pub proof fn lemma_public_file()
    ensures
        rendered(public_input(), false) == DocumentTree::List(Seq::empty()),
{
    assert(rendered(public_input(), false)->List_0 =~= Seq::<DocumentTree>::empty());
}

/// Renders each value of `items` in turn.
fn render_all(items: &Vec<WitnessValue>, grouping: bool) -> (nodes: Vec<Document>)
    ensures
        nodes@.len() == items@.len(),
        forall|i: int|
            0 <= i < items@.len() ==> (#[trigger] nodes@[i])@ == rendered(items@[i]@, grouping),
    decreases items, 0int,
{
    let mut nodes: Vec<Document> = Vec::new();
    let mut done: usize = 0;
    while done < items.len()
        invariant
            done <= items@.len(),
            nodes@.len() == done,
            forall|i: int|
                0 <= i < done ==> (#[trigger] nodes@[i])@ == rendered(items@[i]@, grouping),
        decreases items@.len() - done,
    {
        nodes.push(render(&items[done], grouping));
        done = done + 1;
    }
    nodes
}

/// Builds the node that stands for `value`; see `rendered`.
pub fn render(value: &WitnessValue, grouping: bool) -> (node: Document)
    ensures
        node@ == rendered(value@, grouping),
    decreases value, 1int,
{
    match value {
        WitnessValue::Scalar(element) => {
            let text = Document::Text(element.text());
            assert(text@ == DocumentTree::Text(canonical_text(element@)));
            Document::Tagged("field".to_owned(), Box::new(text))
        },
        WitnessValue::Vector(items) => {
            let key = if grouping {
                "array".to_owned()
            } else {
                "vector".to_owned()
            };
            let list = Document::List(render_all(items, false));
            assert(list@->List_0 =~= rendered(value@, grouping)->Tagged_1->List_0);
            Document::Tagged(key, Box::new(list))
        },
        WitnessValue::Array(items) => {
            let list = Document::List(render_all(items, true));
            assert(list@->List_0 =~= rendered(value@, grouping)->List_0);
            list
        },
    }
}

/// Builds the file content for a private or public input: the outermost value
/// stands inside nothing.
pub fn document(input: &WitnessValue) -> (node: Document)
    ensures
        node@ == rendered(input@, false),
{
    render(input, false)
}

} // verus!
