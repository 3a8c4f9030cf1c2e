//! Tests of the decoder: scalar round trips, node trees, and the exact
//! decode errors.

use mpv::decode::{decode_node, property_from_raw};
use mpv::error::DecodeError;
use mpv::format::MpvFormat;
use mpv::native::{RawNode, RawPayload, RawProperty};
use mpv::value::{Data, Node};

fn bytes(s: &str) -> Vec<u8> {
    s.as_bytes().to_vec()
}

#[test]
fn flag_round_trip() {
    let out = Data::from_raw(MpvFormat::Flag, &RawPayload::Flag(1)).unwrap();
    assert!(matches!(out, Data::Flag(true)));
    let out = Data::from_raw(MpvFormat::Flag, &RawPayload::Flag(0)).unwrap();
    assert!(matches!(out, Data::Flag(false)));
}

#[test]
fn int64_round_trip() {
    let out = Data::from_raw(MpvFormat::Int64, &RawPayload::Int64(-42)).unwrap();
    assert!(matches!(out, Data::Int64(-42)));
    let out = Data::from_raw(MpvFormat::Int64, &RawPayload::Int64(i64::MAX)).unwrap();
    assert!(matches!(out, Data::Int64(i64::MAX)));
}

#[test]
fn double_round_trip() {
    let bits = 3.5f64.to_bits();
    let out = Data::from_raw(MpvFormat::Double, &RawPayload::Double(bits)).unwrap();
    match out {
        Data::Double(b) => assert_eq!(f64::from_bits(b), 3.5),
        _ => panic!("expected a double"),
    }
}

#[test]
fn string_round_trip() {
    let out = Data::from_raw(MpvFormat::String, &RawPayload::Text(bytes("media-title"))).unwrap();
    match out {
        Data::String(s) => assert_eq!(s, "media-title"),
        _ => panic!("expected a string"),
    }
    let out = Data::from_raw(MpvFormat::OsdString, &RawPayload::Text(bytes("osd"))).unwrap();
    match out {
        Data::OsdString(s) => assert_eq!(s, "osd"),
        _ => panic!("expected an osd string"),
    }
}

#[test]
fn invalid_utf8_is_recovered_lossily() {
    let out = Data::from_raw(MpvFormat::String, &RawPayload::Text(vec![0x61, 0xff, 0x62])).unwrap();
    match out {
        Data::String(s) => assert_eq!(s, "a\u{fffd}b"),
        _ => panic!("expected a string"),
    }
}

#[test]
fn node_round_trip_seekable_ranges() {
    // { "seekable-ranges": [ {"start": 1.0, "end": 2.0}, {"start": 5.0, "end": 9.5} ] }
    let range = |start: f64, end: f64| {
        RawNode::Dict(vec![
            (bytes("start"), RawNode::Double(start.to_bits())),
            (bytes("end"), RawNode::Double(end.to_bits())),
        ])
    };
    let tree = RawNode::Dict(vec![(
        bytes("seekable-ranges"),
        RawNode::Array(vec![range(1.0, 2.0), range(5.0, 9.5)]),
    )]);
    let out = decode_node(&tree);
    let Node::Dict(top) = out else { panic!("expected a dict") };
    assert_eq!(top.len(), 1);
    assert_eq!(top[0].0, "seekable-ranges");
    let Node::Array(ranges) = &top[0].1 else { panic!("expected an array") };
    assert_eq!(ranges.len(), 2);
    let expect = [(1.0f64, 2.0f64), (5.0f64, 9.5f64)];
    for (i, r) in ranges.iter().enumerate() {
        let Node::Dict(pairs) = r else { panic!("expected a dict") };
        assert_eq!(pairs[0].0, "start");
        let Node::Double(b) = pairs[0].1 else { panic!("expected a double") };
        assert_eq!(f64::from_bits(b), expect[i].0);
        assert_eq!(pairs[1].0, "end");
        let Node::Double(b) = pairs[1].1 else { panic!("expected a double") };
        assert_eq!(f64::from_bits(b), expect[i].1);
    }
}

#[test]
fn unknown_node_kind_decodes_to_none() {
    let tree = RawNode::Array(vec![
        RawNode::Int64(1),
        RawNode::Unknown(77),
        RawNode::Int64(3),
    ]);
    let out = decode_node(&tree);
    let Node::Array(items) = out else { panic!("expected an array") };
    assert!(matches!(items[0], Node::Int64(1)));
    assert!(matches!(items[1], Node::NoneVal));
    assert!(matches!(items[2], Node::Int64(3)));
}

#[test]
fn node_array_order_is_preserved() {
    let tree = RawNode::Array(vec![RawNode::Int64(10), RawNode::Int64(20), RawNode::Int64(30)]);
    let Node::Array(items) = decode_node(&tree) else { panic!("expected an array") };
    let got: Vec<i64> = items
        .iter()
        .map(|n| match n {
            Node::Int64(v) => *v,
            _ => panic!("expected an int"),
        })
        .collect();
    assert_eq!(got, vec![10, 20, 30]);
}

#[test]
fn unsupported_format_is_refused_with_code() {
    let out = Data::from_raw(MpvFormat::ByteArray, &RawPayload::Int64(1));
    assert_eq!(out.unwrap_err(), DecodeError::UnsupportedFormat(9));
    let out = Data::from_raw(MpvFormat::NoneVal, &RawPayload::Null);
    assert_eq!(out.unwrap_err(), DecodeError::UnsupportedFormat(0));
}

#[test]
fn null_payload_is_refused() {
    let out = Data::from_raw(MpvFormat::Int64, &RawPayload::Null);
    assert_eq!(out.unwrap_err(), DecodeError::NullPayload);
}

#[test]
fn mismatched_payload_is_malformed() {
    let out = Data::from_raw(MpvFormat::Int64, &RawPayload::Double(0));
    assert_eq!(out.unwrap_err(), DecodeError::Malformed);
    let out = Data::from_raw(MpvFormat::Flag, &RawPayload::Flag(2));
    assert_eq!(out.unwrap_err(), DecodeError::Malformed);
}

#[test]
fn property_record_decodes_name_and_value() {
    let p = RawProperty { name: bytes("volume"), format: 4, data: RawPayload::Int64(64) };
    let (name, data) = property_from_raw(&p).unwrap();
    assert_eq!(name, "volume");
    assert!(matches!(data, Data::Int64(64)));
}

#[test]
fn property_record_with_unknown_format_is_refused() {
    let p = RawProperty { name: bytes("volume"), format: 99, data: RawPayload::Null };
    assert_eq!(property_from_raw(&p).unwrap_err(), DecodeError::UnsupportedFormat(99));
}
