//! Error types: classified native status codes, decode failures, and the
//! error type returned by the public operations.

use vstd::prelude::*;

verus! {

/// The native library's status codes, classified. A zero status means
/// success; each variant stands for one documented negative code.
#[derive(Clone, Copy, Debug, PartialEq, Eq, Structural)]
pub enum MpvError {
    EventQueueFull,
    NoMem,
    Uninitialized,
    InvalidParameter,
    OptionNotFound,
    OptionFormat,
    OptionError,
    PropertyNotFound,
    PropertyFormat,
    PropertyUnavailable,
    PropertyError,
    CommandError,
    LoadingFailed,
    AoInitFailed,
    VoInitFailed,
    NothingToPlay,
    UnknownFormat,
    Unsupported,
    NotImplemented,
    Generic,
}

impl MpvError {
    /// The native status code of this variant.
    pub open spec fn code_spec(self) -> i32 {
        match self {
            MpvError::EventQueueFull => -1i32,
            MpvError::NoMem => -2i32,
            MpvError::Uninitialized => -3i32,
            MpvError::InvalidParameter => -4i32,
            MpvError::OptionNotFound => -5i32,
            MpvError::OptionFormat => -6i32,
            MpvError::OptionError => -7i32,
            MpvError::PropertyNotFound => -8i32,
            MpvError::PropertyFormat => -9i32,
            MpvError::PropertyUnavailable => -10i32,
            MpvError::PropertyError => -11i32,
            MpvError::CommandError => -12i32,
            MpvError::LoadingFailed => -13i32,
            MpvError::AoInitFailed => -14i32,
            MpvError::VoInitFailed => -15i32,
            MpvError::NothingToPlay => -16i32,
            MpvError::UnknownFormat => -17i32,
            MpvError::Unsupported => -18i32,
            MpvError::NotImplemented => -19i32,
            MpvError::Generic => -20i32,
        }
    }

    /// The variant for a native status code, if the code is a documented one.
    pub open spec fn from_code_spec(code: i32) -> Option<MpvError> {
        if code == -1 { Some(MpvError::EventQueueFull) }
        else if code == -2 { Some(MpvError::NoMem) }
        else if code == -3 { Some(MpvError::Uninitialized) }
        else if code == -4 { Some(MpvError::InvalidParameter) }
        else if code == -5 { Some(MpvError::OptionNotFound) }
        else if code == -6 { Some(MpvError::OptionFormat) }
        else if code == -7 { Some(MpvError::OptionError) }
        else if code == -8 { Some(MpvError::PropertyNotFound) }
        else if code == -9 { Some(MpvError::PropertyFormat) }
        else if code == -10 { Some(MpvError::PropertyUnavailable) }
        else if code == -11 { Some(MpvError::PropertyError) }
        else if code == -12 { Some(MpvError::CommandError) }
        else if code == -13 { Some(MpvError::LoadingFailed) }
        else if code == -14 { Some(MpvError::AoInitFailed) }
        else if code == -15 { Some(MpvError::VoInitFailed) }
        else if code == -16 { Some(MpvError::NothingToPlay) }
        else if code == -17 { Some(MpvError::UnknownFormat) }
        else if code == -18 { Some(MpvError::Unsupported) }
        else if code == -19 { Some(MpvError::NotImplemented) }
        else if code == -20 { Some(MpvError::Generic) }
        else { None }
    }

    /// The native status code of this variant, as the C ABI carries it.
    pub fn as_val(&self) -> (r: i32)
        ensures
            r == self.code_spec(),
    {
        match *self {
            MpvError::EventQueueFull => -1,
            MpvError::NoMem => -2,
            MpvError::Uninitialized => -3,
            MpvError::InvalidParameter => -4,
            MpvError::OptionNotFound => -5,
            MpvError::OptionFormat => -6,
            MpvError::OptionError => -7,
            MpvError::PropertyNotFound => -8,
            MpvError::PropertyFormat => -9,
            MpvError::PropertyUnavailable => -10,
            MpvError::PropertyError => -11,
            MpvError::CommandError => -12,
            MpvError::LoadingFailed => -13,
            MpvError::AoInitFailed => -14,
            MpvError::VoInitFailed => -15,
            MpvError::NothingToPlay => -16,
            MpvError::UnknownFormat => -17,
            MpvError::Unsupported => -18,
            MpvError::NotImplemented => -19,
            MpvError::Generic => -20,
        }
    }

    /// Classifies a native status code.
    pub fn from_i32(code: i32) -> (r: Option<MpvError>)
        ensures
            r == Self::from_code_spec(code),
    {
        if code == -1 { Some(MpvError::EventQueueFull) }
        else if code == -2 { Some(MpvError::NoMem) }
        else if code == -3 { Some(MpvError::Uninitialized) }
        else if code == -4 { Some(MpvError::InvalidParameter) }
        else if code == -5 { Some(MpvError::OptionNotFound) }
        else if code == -6 { Some(MpvError::OptionFormat) }
        else if code == -7 { Some(MpvError::OptionError) }
        else if code == -8 { Some(MpvError::PropertyNotFound) }
        else if code == -9 { Some(MpvError::PropertyFormat) }
        else if code == -10 { Some(MpvError::PropertyUnavailable) }
        else if code == -11 { Some(MpvError::PropertyError) }
        else if code == -12 { Some(MpvError::CommandError) }
        else if code == -13 { Some(MpvError::LoadingFailed) }
        else if code == -14 { Some(MpvError::AoInitFailed) }
        else if code == -15 { Some(MpvError::VoInitFailed) }
        else if code == -16 { Some(MpvError::NothingToPlay) }
        else if code == -17 { Some(MpvError::UnknownFormat) }
        else if code == -18 { Some(MpvError::Unsupported) }
        else if code == -19 { Some(MpvError::NotImplemented) }
        else if code == -20 { Some(MpvError::Generic) }
        else { None }
    }

    /// The short description of this status.
    pub open spec fn error_text(self) -> Seq<char> {
        match self {
            MpvError::EventQueueFull => "event queue full"@,
            MpvError::NoMem => "memory allocation failed"@,
            MpvError::Uninitialized => "core not initialized"@,
            MpvError::InvalidParameter => "invalid parameter"@,
            MpvError::OptionNotFound => "option not found"@,
            MpvError::OptionFormat => "unsupported format for accessing option"@,
            MpvError::OptionError => "error setting option"@,
            MpvError::PropertyNotFound => "property not found"@,
            MpvError::PropertyFormat => "unsupported format for accessing property"@,
            MpvError::PropertyUnavailable => "property unavailable"@,
            MpvError::PropertyError => "error accessing property"@,
            MpvError::CommandError => "error running command"@,
            MpvError::LoadingFailed => "loading failed"@,
            MpvError::AoInitFailed => "audio output initialization failed"@,
            MpvError::VoInitFailed => "video output initialization failed"@,
            MpvError::NothingToPlay => "no audio or video data played"@,
            MpvError::UnknownFormat => "unrecognized file format"@,
            MpvError::Unsupported => "not supported"@,
            MpvError::NotImplemented => "operation not implemented"@,
            MpvError::Generic => "something happened"@,
        }
    }

    /// Returns the associated error string.
    pub fn error_string(&self) -> (r: &'static str)
        ensures
            r@ == self.error_text(),
    {
        match *self {
            MpvError::EventQueueFull => "event queue full",
            MpvError::NoMem => "memory allocation failed",
            MpvError::Uninitialized => "core not initialized",
            MpvError::InvalidParameter => "invalid parameter",
            MpvError::OptionNotFound => "option not found",
            MpvError::OptionFormat => "unsupported format for accessing option",
            MpvError::OptionError => "error setting option",
            MpvError::PropertyNotFound => "property not found",
            MpvError::PropertyFormat => "unsupported format for accessing property",
            MpvError::PropertyUnavailable => "property unavailable",
            MpvError::PropertyError => "error accessing property",
            MpvError::CommandError => "error running command",
            MpvError::LoadingFailed => "loading failed",
            MpvError::AoInitFailed => "audio output initialization failed",
            MpvError::VoInitFailed => "video output initialization failed",
            MpvError::NothingToPlay => "no audio or video data played",
            MpvError::UnknownFormat => "unrecognized file format",
            MpvError::Unsupported => "not supported",
            MpvError::NotImplemented => "operation not implemented",
            MpvError::Generic => "something happened",
        }
    }
}

/// A failure while interpreting an untyped native payload.
#[derive(Clone, Copy, Debug, PartialEq, Eq, Structural)]
pub enum DecodeError {
    /// The format tag is not one the decoder supports at this position.
    UnsupportedFormat(i32),
    /// The payload was null where a value is required.
    NullPayload,
    /// The payload does not have the shape the format tag announces.
    Malformed,
}

/// The error type of the public operations.
#[derive(Clone, Copy, Debug, PartialEq, Eq, Structural)]
pub enum Error {
    /// The native library reported a non-zero status; the code is kept exactly.
    Native(i32),
    /// An individual payload could not be interpreted.
    Decode(DecodeError),
    /// No event arrived within the requested window; expected, not exceptional.
    Timeout,
    /// The operation was attempted on a torn-down handle.
    InvalidHandle,
}

/// Translates a native status into a `Result`: a zero status passes `ret`
/// through, a negative status becomes `Error::Native` with the code kept.
pub fn mpv_err<T>(ret: T, err_val: i32) -> (r: Result<T, Error>)
    requires
        err_val <= 0,
    ensures
        err_val == 0 ==> r == Ok::<T, Error>(ret),
        err_val != 0 ==> r == Err::<T, Error>(Error::Native(err_val)),
{
    if err_val == 0 {
        Ok(ret)
    } else {
        Err(Error::Native(err_val))
    }
}

} // verus!
