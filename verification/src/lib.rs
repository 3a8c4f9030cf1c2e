//! Safe marshaling for an event-driven native media-control library.
//!
//! The native library speaks through an untyped C ABI: tagged unions,
//! format codes and status integers. This crate holds the typed side of
//! that boundary: the owned value types every payload decodes into, the
//! decoder that interprets a (format tag, payload) pair, the table that
//! correlates property-change notifications with caller-registered
//! observations, and the event loop that turns raw native envelopes into
//! typed events. The unsafe reading of native memory into the plain
//! `native` records is left to the embedding program; everything from
//! those records onward is specified and verified here.

pub mod commands;
pub mod decode;
pub mod error;
pub mod event_loop;
pub mod events;
pub mod format;
pub mod native;
pub mod observe;
pub mod value;
