//! Owned, type-safe values: every marshaled payload decodes into a `Data`,
//! and composite payloads into the recursive `Node` tree. A decoded value
//! owns all of its text and children; nothing in it refers back to native
//! memory.
//!
//! Each type has a ghost model (`DataModel`, `NodeModel`) reached through
//! `data_model` and `node_model`: the same tree with text as `Seq<char>`
//! and vectors as `Seq`, which is what the decoder contracts speak of.

use vstd::prelude::*;

verus! {

/// The native library's generic recursive value: a scalar, text, an
/// ordered array, or an ordered list of key/value pairs. `NoneVal` is the
/// "no value" leaf, which unknown native node kinds also decode to.
///
/// A `Double` holds the IEEE-754 bit pattern of the native 64-bit float,
/// unchanged; callers that want the numeric value reconstruct it from the
/// bits.
#[derive(Debug)]
pub enum Node {
    Flag(bool),
    Int64(i64),
    Double(u64),
    String(String),
    Array(Vec<Node>),
    /// Key/value pairs in native iteration order; order is preserved.
    Dict(Vec<(String, Node)>),
    NoneVal,
}

/// The ghost model of a `Node`.
pub enum NodeModel {
    Flag(bool),
    Int64(i64),
    Double(u64),
    Text(Seq<char>),
    Array(Seq<NodeModel>),
    Dict(Seq<(Seq<char>, NodeModel)>),
    NoneVal,
}

/// The ghost model of a node: the same tree with owned text as `Seq<char>`.
pub open spec fn node_model(n: Node) -> NodeModel
    decreases n,
{
    match n {
        Node::Flag(b) => NodeModel::Flag(b),
        Node::Int64(v) => NodeModel::Int64(v),
        Node::Double(bits) => NodeModel::Double(bits),
        Node::String(s) => NodeModel::Text(s@),
        Node::Array(items) => NodeModel::Array(nodes_model(items@)),
        Node::Dict(pairs) => NodeModel::Dict(pairs_model(pairs@)),
        Node::NoneVal => NodeModel::NoneVal,
    }
}

/// Element-wise model of an array's nodes, in order.
pub open spec fn nodes_model(items: Seq<Node>) -> Seq<NodeModel>
    decreases items,
{
    if items.len() == 0 {
        Seq::empty()
    } else {
        nodes_model(items.drop_last()).push(node_model(items.last()))
    }
}

/// Pair-wise model of a dict's entries, in order.
pub open spec fn pairs_model(pairs: Seq<(String, Node)>) -> Seq<(Seq<char>, NodeModel)>
    decreases pairs,
{
    if pairs.len() == 0 {
        Seq::empty()
    } else {
        pairs_model(pairs.drop_last()).push((pairs.last().0@, node_model(pairs.last().1)))
    }
}

/// An owned, type-safe payload: what any marshaled native value becomes.
///
/// `Double` carries the IEEE-754 bit pattern, as in `Node`. `String` and
/// `OsdString` own their text: the native bytes were decoded and copied
/// before the native memory was released.
#[derive(Debug)]
pub enum Data {
    Flag(bool),
    Int64(i64),
    Double(u64),
    String(String),
    OsdString(String),
    Node(Node),
}

/// The ghost model of a `Data`.
pub enum DataModel {
    Flag(bool),
    Int64(i64),
    Double(u64),
    Text(Seq<char>),
    OsdText(Seq<char>),
    Tree(NodeModel),
}

/// The ghost model of an owned payload.
pub open spec fn data_model(d: Data) -> DataModel {
    match d {
        Data::Flag(b) => DataModel::Flag(b),
        Data::Int64(v) => DataModel::Int64(v),
        Data::Double(bits) => DataModel::Double(bits),
        Data::String(s) => DataModel::Text(s@),
        Data::OsdString(s) => DataModel::OsdText(s@),
        Data::Node(n) => DataModel::Tree(node_model(n)),
    }
}

} // verus!
