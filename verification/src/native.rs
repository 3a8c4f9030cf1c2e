//! Plain-value records of the native envelopes. The native library hands
//! out tagged unions behind raw pointers; the embedding program copies
//! each one, field by field, into these records before the native call
//! returns, so that everything the decoder reads is an owned plain value.
//! Text is kept as the raw C-string bytes, undecoded; numeric fields keep
//! their exact native width; a native double is kept as its IEEE-754 bit
//! pattern.

use vstd::prelude::*;

verus! {

/// One native node: the discriminated union behind the node format,
/// copied out as plain values. `Unknown` keeps the format code of a node
/// kind this library does not know; the decoder turns it into a "none"
/// leaf instead of failing the tree.
#[derive(Debug)]
pub enum RawNode {
    /// Native truth value: 0 or 1 exactly.
    Flag(i32),
    Int64(i64),
    /// IEEE-754 bit pattern of the native double.
    Double(u64),
    /// The bytes of the native C string, undecoded.
    Text(Vec<u8>),
    Array(Vec<RawNode>),
    /// Keys as native C-string bytes, in native iteration order.
    Dict(Vec<(Vec<u8>, RawNode)>),
    NoneVal,
    /// A node kind this library does not know; carries the format code.
    Unknown(i32),
}

/// The untyped payload a format tag points at, copied out as a plain
/// value. `Null` stands for a null payload pointer.
#[derive(Debug)]
pub enum RawPayload {
    Null,
    /// Native truth value: 0 or 1 exactly.
    Flag(i32),
    Int64(i64),
    /// IEEE-754 bit pattern of the native double.
    Double(u64),
    /// The bytes of the native C string, undecoded.
    Text(Vec<u8>),
    Node(RawNode),
}

/// The native property record attached to a property-change notification
/// or a get-property reply: a name, a format code, and the payload the
/// format code describes.
#[derive(Debug)]
pub struct RawProperty {
    /// The property name as native C-string bytes.
    pub name: Vec<u8>,
    /// The native format code of `data`.
    pub format: i32,
    pub data: RawPayload,
}

/// The payload part of a native event envelope, by shape.
#[derive(Debug)]
pub enum RawEventData {
    /// The event kind carries no payload.
    NoData,
    /// A property record (property-change, get-property reply).
    Property(RawProperty),
    /// An end-file reason code.
    EndFile(i32),
    /// A native log record.
    LogMessage {
        /// The sender prefix, as C-string bytes.
        prefix: Vec<u8>,
        /// The level name, as C-string bytes.
        level: Vec<u8>,
        /// The log text, as C-string bytes.
        text: Vec<u8>,
        /// The numeric log level.
        log_level: i32,
    },
    /// Arguments of a client message, each as C-string bytes.
    ClientMessage(Vec<Vec<u8>>),
    /// A hook notification.
    Hook {
        /// The hook name, as C-string bytes.
        name: Vec<u8>,
        id: u64,
    },
}

/// One native event envelope: the event-id tag, the status the native
/// library attached, the reply id used to correlate notifications, and
/// the payload.
#[derive(Debug)]
pub struct RawEvent {
    pub event_id: i32,
    /// Native status for this event; negative when the native library
    /// reports a failure.
    pub error: i32,
    /// The id the native library attached so the event can be correlated
    /// back to the request or observation that caused it.
    pub reply_userdata: u64,
    pub data: RawEventData,
}

} // verus!
