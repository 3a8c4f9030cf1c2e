//! The decoder: interprets a (format tag, untyped payload) pair as an
//! owned `Data`, recursively for node trees. Decoding copies everything
//! out of the plain `native` records; nothing of the input is retained.
//!
//! The one step this crate does not compute itself is turning native
//! C-string bytes into owned text, which the standard library's lossy
//! UTF-8 decoding does; its result is named `decoded_text` and every
//! contract about text goes through that name.

use vstd::prelude::*;
use crate::error::DecodeError;
use crate::format::MpvFormat;
use crate::native::{RawNode, RawPayload, RawProperty};
use crate::value::{data_model, node_model, nodes_model, pairs_model, Data, DataModel, Node, NodeModel};

verus! {

broadcast use vstd::std_specs::vec::group_vec_axioms;

/// The text that the platform decoding of a native C string's bytes
/// yields. The decoding depends on the bytes alone.
pub uninterp spec fn decoded_text(bytes: Seq<u8>) -> Seq<char>;

/// Relies on `String::from_utf8_lossy`: decodes the bytes of a native C
/// string into owned text, depending on the bytes alone; an empty byte
/// string decodes to empty text.
#[verifier::external_body]
pub(crate) fn mpv_cstr_to_string(bytes: &Vec<u8>) -> (r: String)
    ensures
        r@ == decoded_text(bytes@),
        bytes@.len() == 0 ==> r@.len() == 0,
{
    String::from_utf8_lossy(bytes).into_owned()
}

/// What a native node decodes to. Total: a malformed truth value and an
/// unknown node kind both degrade to the "none" leaf, so a newer native
/// library never fails a whole tree.
pub open spec fn decode_node_spec(r: RawNode) -> NodeModel
    decreases r,
{
    match r {
        RawNode::Flag(v) => if v == 0 {
            NodeModel::Flag(false)
        } else if v == 1 {
            NodeModel::Flag(true)
        } else {
            NodeModel::NoneVal
        },
        RawNode::Int64(v) => NodeModel::Int64(v),
        RawNode::Double(bits) => NodeModel::Double(bits),
        RawNode::Text(bytes) => NodeModel::Text(decoded_text(bytes@)),
        RawNode::Array(items) => NodeModel::Array(decode_nodes_spec(items@)),
        RawNode::Dict(pairs) => NodeModel::Dict(decode_pairs_spec(pairs@)),
        RawNode::NoneVal => NodeModel::NoneVal,
        RawNode::Unknown(_) => NodeModel::NoneVal,
    }
}

/// Element-wise decoding of an array's nodes, in order.
pub open spec fn decode_nodes_spec(items: Seq<RawNode>) -> Seq<NodeModel>
    decreases items,
{
    if items.len() == 0 {
        Seq::empty()
    } else {
        decode_nodes_spec(items.drop_last()).push(decode_node_spec(items.last()))
    }
}

/// Pair-wise decoding of a dict's entries, keys decoded as text, in order.
pub open spec fn decode_pairs_spec(pairs: Seq<(Vec<u8>, RawNode)>) -> Seq<(Seq<char>, NodeModel)>
    decreases pairs,
{
    if pairs.len() == 0 {
        Seq::empty()
    } else {
        decode_pairs_spec(pairs.drop_last()).push(
            (decoded_text(pairs.last().0@), decode_node_spec(pairs.last().1)),
        )
    }
}

/// The decoded array has one element per input node, each decoded in place.
pub proof fn lemma_decode_nodes_index(items: Seq<RawNode>)
    ensures
        decode_nodes_spec(items).len() == items.len(),
        forall|i: int| 0 <= i < items.len()
            ==> #[trigger] decode_nodes_spec(items)[i] == decode_node_spec(items[i]),
    decreases items.len(),
{
    if items.len() > 0 {
        lemma_decode_nodes_index(items.drop_last());
    }
}

/// Decodes one native node into an owned `Node`. Total over every node
/// record: array elements and dict pairs are decoded recursively in
/// order, and unknown node kinds become the "none" leaf.
#[verifier::loop_isolation(false)]
pub fn decode_node(r: &RawNode) -> (out: Node)
    ensures
        node_model(out) == decode_node_spec(*r),
    decreases *r,
{
    match r {
        RawNode::Flag(v) => if *v == 0 {
            Node::Flag(false)
        } else if *v == 1 {
            Node::Flag(true)
        } else {
            Node::NoneVal
        },
        RawNode::Int64(v) => Node::Int64(*v),
        RawNode::Double(bits) => Node::Double(*bits),
        RawNode::Text(bytes) => Node::String(mpv_cstr_to_string(bytes)),
        RawNode::Array(items) => {
            let mut out: Vec<Node> = Vec::new();
            let mut i: usize = 0;
            while i < items.len()
                invariant
                    i <= items@.len(),
                    out@.len() == i,
                    nodes_model(out@) == decode_nodes_spec(items@.take(i as int)),
                decreases items@.len() - i,
            {
                proof {
                    assert(decreases_to!(*r => (*r)->Array_0));
                    assert((*r)->Array_0 == *items);
                }
                let child = decode_node(&items[i]);
                let ghost prev = out@;
                out.push(child);
                proof {
                    let t1 = items@.take(i + 1 as int);
                    assert(t1.drop_last() =~= items@.take(i as int));
                    assert(out@.drop_last() =~= prev);
                    assert(nodes_model(out@) == decode_nodes_spec(t1));
                }
                i += 1;
            }
            proof {
                assert(items@.take(items@.len() as int) =~= items@);
            }
            Node::Array(out)
        },
        RawNode::Dict(pairs) => {
            let mut out: Vec<(String, Node)> = Vec::new();
            let mut i: usize = 0;
            while i < pairs.len()
                invariant
                    i <= pairs@.len(),
                    out@.len() == i,
                    pairs_model(out@) == decode_pairs_spec(pairs@.take(i as int)),
                decreases pairs@.len() - i,
            {
                proof {
                    assert(decreases_to!(*r => (*r)->Dict_0));
                    assert((*r)->Dict_0 == *pairs);
                }
                let key = mpv_cstr_to_string(&pairs[i].0);
                let child = decode_node(&pairs[i].1);
                let ghost prev = out@;
                out.push((key, child));
                proof {
                    let t1 = pairs@.take(i + 1 as int);
                    assert(t1.drop_last() =~= pairs@.take(i as int));
                    assert(out@.drop_last() =~= prev);
                    assert(pairs_model(out@) == decode_pairs_spec(t1));
                }
                i += 1;
            }
            proof {
                assert(pairs@.take(pairs@.len() as int) =~= pairs@);
            }
            Node::Dict(out)
        },
        RawNode::NoneVal => Node::NoneVal,
        RawNode::Unknown(_) => Node::NoneVal,
    }
}

/// What decoding a (format, payload) pair yields: the decoded value, or
/// the exact failure. Only the five scalar/text formats and the node
/// format are supported; any other format tag is refused, a null payload
/// is refused, and a payload whose shape does not match the tag is
/// malformed.
pub open spec fn from_raw_spec(format: MpvFormat, payload: RawPayload) -> Result<
    DataModel,
    DecodeError,
> {
    match format {
        MpvFormat::Flag => match payload {
            RawPayload::Null => Err(DecodeError::NullPayload),
            RawPayload::Flag(v) => if v == 0 {
                Ok(DataModel::Flag(false))
            } else if v == 1 {
                Ok(DataModel::Flag(true))
            } else {
                Err(DecodeError::Malformed)
            },
            _ => Err(DecodeError::Malformed),
        },
        MpvFormat::Int64 => match payload {
            RawPayload::Null => Err(DecodeError::NullPayload),
            RawPayload::Int64(v) => Ok(DataModel::Int64(v)),
            _ => Err(DecodeError::Malformed),
        },
        MpvFormat::Double => match payload {
            RawPayload::Null => Err(DecodeError::NullPayload),
            RawPayload::Double(bits) => Ok(DataModel::Double(bits)),
            _ => Err(DecodeError::Malformed),
        },
        MpvFormat::String => match payload {
            RawPayload::Null => Err(DecodeError::NullPayload),
            RawPayload::Text(bytes) => Ok(DataModel::Text(decoded_text(bytes@))),
            _ => Err(DecodeError::Malformed),
        },
        MpvFormat::OsdString => match payload {
            RawPayload::Null => Err(DecodeError::NullPayload),
            RawPayload::Text(bytes) => Ok(DataModel::OsdText(decoded_text(bytes@))),
            _ => Err(DecodeError::Malformed),
        },
        MpvFormat::Node => match payload {
            RawPayload::Null => Err(DecodeError::NullPayload),
            RawPayload::Node(n) => Ok(DataModel::Tree(decode_node_spec(n))),
            _ => Err(DecodeError::Malformed),
        },
        _ => Err(DecodeError::UnsupportedFormat(format.code_spec())),
    }
}

/// The ghost model of a decode result: the value's model on success, the
/// error unchanged on failure.
pub open spec fn decode_result_model(r: Result<Data, DecodeError>) -> Result<
    DataModel,
    DecodeError,
> {
    match r {
        Ok(d) => Ok(data_model(d)),
        Err(e) => Err(e),
    }
}

impl Data {
    /// Decodes an untyped native payload under a format tag into an owned
    /// value, exactly as `from_raw_spec` says.
    pub fn from_raw(format: MpvFormat, payload: &RawPayload) -> (out: Result<Data, DecodeError>)
        ensures
            decode_result_model(out) == from_raw_spec(format, *payload),
    {
        match format {
            MpvFormat::Flag => match payload {
                RawPayload::Null => Err(DecodeError::NullPayload),
                RawPayload::Flag(v) => if *v == 0 {
                    Ok(Data::Flag(false))
                } else if *v == 1 {
                    Ok(Data::Flag(true))
                } else {
                    Err(DecodeError::Malformed)
                },
                _ => Err(DecodeError::Malformed),
            },
            MpvFormat::Int64 => match payload {
                RawPayload::Null => Err(DecodeError::NullPayload),
                RawPayload::Int64(v) => Ok(Data::Int64(*v)),
                _ => Err(DecodeError::Malformed),
            },
            MpvFormat::Double => match payload {
                RawPayload::Null => Err(DecodeError::NullPayload),
                RawPayload::Double(bits) => Ok(Data::Double(*bits)),
                _ => Err(DecodeError::Malformed),
            },
            MpvFormat::String => match payload {
                RawPayload::Null => Err(DecodeError::NullPayload),
                RawPayload::Text(bytes) => Ok(Data::String(mpv_cstr_to_string(bytes))),
                _ => Err(DecodeError::Malformed),
            },
            MpvFormat::OsdString => match payload {
                RawPayload::Null => Err(DecodeError::NullPayload),
                RawPayload::Text(bytes) => Ok(Data::OsdString(mpv_cstr_to_string(bytes))),
                _ => Err(DecodeError::Malformed),
            },
            MpvFormat::Node => match payload {
                RawPayload::Null => Err(DecodeError::NullPayload),
                RawPayload::Node(n) => Ok(Data::Node(decode_node(n))),
                _ => Err(DecodeError::Malformed),
            },
            _ => {
                let code = format.as_val();
                Err(DecodeError::UnsupportedFormat(code))
            },
        }
    }
}

/// Scalar round trip: decoding a payload built from a native value
/// reproduces exactly that value — every truth value, every 64-bit
/// integer, every double bit pattern.
pub proof fn lemma_scalar_round_trip(b: bool, v: i64, bits: u64)
    ensures
        from_raw_spec(MpvFormat::Flag, RawPayload::Flag(if b { 1i32 } else { 0i32 }))
            == Ok::<DataModel, DecodeError>(DataModel::Flag(b)),
        from_raw_spec(MpvFormat::Int64, RawPayload::Int64(v)) == Ok::<DataModel, DecodeError>(
            DataModel::Int64(v),
        ),
        from_raw_spec(MpvFormat::Double, RawPayload::Double(bits)) == Ok::<DataModel, DecodeError>(
            DataModel::Double(bits),
        ),
{
}

/// An unknown node kind decodes to the "none" leaf rather than failing
/// the tree: as a leaf it becomes `NoneVal`, and inside an array only
/// that element degrades — every other element decodes as it would alone.
pub proof fn lemma_unknown_node_kind_decodes_to_none(tag: i32, items: Seq<RawNode>, i: int)
    requires
        0 <= i < items.len(),
        items[i] is Unknown,
    ensures
        decode_node_spec(RawNode::Unknown(tag)) == NodeModel::NoneVal,
        decode_nodes_spec(items).len() == items.len(),
        decode_nodes_spec(items)[i] == NodeModel::NoneVal,
        forall|j: int| 0 <= j < items.len() ==> #[trigger] decode_nodes_spec(items)[j]
            == decode_node_spec(items[j]),
{
    lemma_decode_nodes_index(items);
}

/// What decoding a whole property record yields: the name decoded as
/// text, and the payload decoded under the record's own format code. An
/// unknown format code is refused with that code.
pub open spec fn property_from_raw_spec(p: RawProperty) -> Result<
    (Seq<char>, DataModel),
    DecodeError,
> {
    match MpvFormat::from_code_spec(p.format) {
        Some(format) => match from_raw_spec(format, p.data) {
            Ok(d) => Ok((decoded_text(p.name@), d)),
            Err(e) => Err(e),
        },
        None => Err(DecodeError::UnsupportedFormat(p.format)),
    }
}

/// Decodes a native property record into its owned name and value,
/// exactly as `property_from_raw_spec` says.
pub fn property_from_raw(p: &RawProperty) -> (out: Result<(String, Data), DecodeError>)
    ensures
        match out {
            Ok((name, data)) => property_from_raw_spec(*p) == Ok::<_, DecodeError>(
                (name@, data_model(data)),
            ),
            Err(e) => property_from_raw_spec(*p) == Err::<(Seq<char>, DataModel), _>(e),
        },
{
    match MpvFormat::from_val(p.format) {
        Some(format) => match Data::from_raw(format, &p.data) {
            Ok(d) => Ok((mpv_cstr_to_string(&p.name), d)),
            Err(e) => Err(e),
        },
        None => Err(DecodeError::UnsupportedFormat(p.format)),
    }
}

} // verus!
