//! Format tags: the public subset callers may ask for, and the full set of
//! native format codes that payloads arrive under.

use vstd::prelude::*;

verus! {

/// Subset of `MpvFormat` used by the public API.
#[derive(Clone, Copy, Debug, PartialEq, Eq, Structural)]
pub enum Format {
    String,
    OsdString,
    Flag,
    Int64,
    Double,
}

/// The native library's full set of format codes, as the C ABI tags
/// payloads. `NoneVal` stands for the native "no format" code.
#[derive(Clone, Copy, Debug, PartialEq, Eq, Structural)]
pub enum MpvFormat {
    NoneVal,
    String,
    OsdString,
    Flag,
    Int64,
    Double,
    Node,
    NodeArray,
    NodeMap,
    ByteArray,
}

impl Format {
    /// The native format this public tag stands for.
    pub open spec fn mpv_format_spec(self) -> MpvFormat {
        match self {
            Format::String => MpvFormat::String,
            Format::OsdString => MpvFormat::OsdString,
            Format::Flag => MpvFormat::Flag,
            Format::Int64 => MpvFormat::Int64,
            Format::Double => MpvFormat::Double,
        }
    }

    pub fn as_mpv_format(&self) -> (r: MpvFormat)
        ensures
            r == self.mpv_format_spec(),
    {
        match *self {
            Format::String => MpvFormat::String,
            Format::OsdString => MpvFormat::OsdString,
            Format::Flag => MpvFormat::Flag,
            Format::Int64 => MpvFormat::Int64,
            Format::Double => MpvFormat::Double,
        }
    }
}

impl MpvFormat {
    /// The integer code of this format, as the C ABI carries it.
    pub open spec fn code_spec(self) -> i32 {
        match self {
            MpvFormat::NoneVal => 0i32,
            MpvFormat::String => 1i32,
            MpvFormat::OsdString => 2i32,
            MpvFormat::Flag => 3i32,
            MpvFormat::Int64 => 4i32,
            MpvFormat::Double => 5i32,
            MpvFormat::Node => 6i32,
            MpvFormat::NodeArray => 7i32,
            MpvFormat::NodeMap => 8i32,
            MpvFormat::ByteArray => 9i32,
        }
    }

    /// The format a native integer code stands for, if any.
    pub open spec fn from_code_spec(code: i32) -> Option<MpvFormat> {
        if code == 0 { Some(MpvFormat::NoneVal) }
        else if code == 1 { Some(MpvFormat::String) }
        else if code == 2 { Some(MpvFormat::OsdString) }
        else if code == 3 { Some(MpvFormat::Flag) }
        else if code == 4 { Some(MpvFormat::Int64) }
        else if code == 5 { Some(MpvFormat::Double) }
        else if code == 6 { Some(MpvFormat::Node) }
        else if code == 7 { Some(MpvFormat::NodeArray) }
        else if code == 8 { Some(MpvFormat::NodeMap) }
        else if code == 9 { Some(MpvFormat::ByteArray) }
        else { None }
    }

    pub fn as_val(self) -> (r: i32)
        ensures
            r == self.code_spec(),
    {
        match self {
            MpvFormat::NoneVal => 0,
            MpvFormat::String => 1,
            MpvFormat::OsdString => 2,
            MpvFormat::Flag => 3,
            MpvFormat::Int64 => 4,
            MpvFormat::Double => 5,
            MpvFormat::Node => 6,
            MpvFormat::NodeArray => 7,
            MpvFormat::NodeMap => 8,
            MpvFormat::ByteArray => 9,
        }
    }

    pub fn from_val(code: i32) -> (r: Option<MpvFormat>)
        ensures
            r == Self::from_code_spec(code),
    {
        if code == 0 { Some(MpvFormat::NoneVal) }
        else if code == 1 { Some(MpvFormat::String) }
        else if code == 2 { Some(MpvFormat::OsdString) }
        else if code == 3 { Some(MpvFormat::Flag) }
        else if code == 4 { Some(MpvFormat::Int64) }
        else if code == 5 { Some(MpvFormat::Double) }
        else if code == 6 { Some(MpvFormat::Node) }
        else if code == 7 { Some(MpvFormat::NodeArray) }
        else if code == 8 { Some(MpvFormat::NodeMap) }
        else if code == 9 { Some(MpvFormat::ByteArray) }
        else { None }
    }
}

} // verus!
