//! Typed events and the envelope decoder: turns one native event envelope
//! into an `Event`, using the observation table to name property-change
//! notifications. Exactly which event or error every envelope yields is
//! stated by `decode_event_spec`.

use vstd::prelude::*;
use crate::decode::{decoded_text, from_raw_spec, mpv_cstr_to_string, property_from_raw};
use crate::error::{DecodeError, Error};
use crate::format::{Format, MpvFormat};
use crate::native::{RawEvent, RawEventData};
use crate::observe::{lookup_spec, ObservationTable};
use crate::value::{data_model, Data, DataModel};

verus! {

// Event-id codes as the native C ABI carries them. The gaps are event
// kinds this library does not surface; their envelopes are skipped.
pub const EVENT_NONE: i32 = 0;

pub const EVENT_SHUTDOWN: i32 = 1;

pub const EVENT_LOG_MESSAGE: i32 = 2;

pub const EVENT_GET_PROPERTY_REPLY: i32 = 3;

pub const EVENT_SET_PROPERTY_REPLY: i32 = 4;

pub const EVENT_COMMAND_REPLY: i32 = 5;

pub const EVENT_START_FILE: i32 = 6;

pub const EVENT_END_FILE: i32 = 7;

pub const EVENT_FILE_LOADED: i32 = 8;

pub const EVENT_IDLE: i32 = 11;

pub const EVENT_TICK: i32 = 14;

pub const EVENT_CLIENT_MESSAGE: i32 = 16;

pub const EVENT_VIDEO_RECONFIG: i32 = 17;

pub const EVENT_AUDIO_RECONFIG: i32 = 18;

pub const EVENT_SEEK: i32 = 20;

pub const EVENT_PLAYBACK_RESTART: i32 = 21;

pub const EVENT_PROPERTY_CHANGE: i32 = 22;

pub const EVENT_QUEUE_OVERFLOW: i32 = 24;

pub const EVENT_HOOK: i32 = 25;

/// A typed event, constructed fresh per poll; it owns all of its payload.
#[derive(Debug)]
pub enum Event {
    Shutdown,
    LogMessage { prefix: String, level: String, text: String, log_level: i32 },
    GetPropertyReply { reply: u64, name: String, data: Data },
    SetPropertyReply(u64),
    CommandReply(u64),
    StartFile,
    EndFile(i32),
    FileLoaded,
    /// Deprecated kind; suppressible.
    Idle,
    /// Deprecated kind; suppressible.
    Tick,
    ClientMessage(Vec<String>),
    VideoReconfig,
    AudioReconfig,
    Seek,
    PlaybackRestart,
    PropertyChange { id: u64, name: String, data: Data },
    QueueOverflow,
    Hook { name: String, id: u64 },
}

/// The ghost model of an `Event`.
pub enum EventModel {
    Shutdown,
    LogMessage { prefix: Seq<char>, level: Seq<char>, text: Seq<char>, log_level: i32 },
    GetPropertyReply { reply: u64, name: Seq<char>, data: DataModel },
    SetPropertyReply(u64),
    CommandReply(u64),
    StartFile,
    EndFile(i32),
    FileLoaded,
    Idle,
    Tick,
    ClientMessage(Seq<Seq<char>>),
    VideoReconfig,
    AudioReconfig,
    Seek,
    PlaybackRestart,
    PropertyChange { id: u64, name: Seq<char>, data: DataModel },
    QueueOverflow,
    Hook { name: Seq<char>, id: u64 },
}

/// Element-wise view of owned strings.
pub open spec fn strings_model(s: Seq<String>) -> Seq<Seq<char>> {
    s.map(|i: int, x: String| x@)
}

/// The ghost model of an event.
pub open spec fn event_model(e: Event) -> EventModel {
    match e {
        Event::Shutdown => EventModel::Shutdown,
        Event::LogMessage { prefix, level, text, log_level } => EventModel::LogMessage {
            prefix: prefix@,
            level: level@,
            text: text@,
            log_level,
        },
        Event::GetPropertyReply { reply, name, data } => EventModel::GetPropertyReply {
            reply,
            name: name@,
            data: data_model(data),
        },
        Event::SetPropertyReply(reply) => EventModel::SetPropertyReply(reply),
        Event::CommandReply(reply) => EventModel::CommandReply(reply),
        Event::StartFile => EventModel::StartFile,
        Event::EndFile(reason) => EventModel::EndFile(reason),
        Event::FileLoaded => EventModel::FileLoaded,
        Event::Idle => EventModel::Idle,
        Event::Tick => EventModel::Tick,
        Event::ClientMessage(args) => EventModel::ClientMessage(strings_model(args@)),
        Event::VideoReconfig => EventModel::VideoReconfig,
        Event::AudioReconfig => EventModel::AudioReconfig,
        Event::Seek => EventModel::Seek,
        Event::PlaybackRestart => EventModel::PlaybackRestart,
        Event::PropertyChange { id, name, data } => EventModel::PropertyChange {
            id,
            name: name@,
            data: data_model(data),
        },
        Event::QueueOverflow => EventModel::QueueOverflow,
        Event::Hook { name, id } => EventModel::Hook { name: name@, id },
    }
}

/// The event-id codes this library surfaces as events.
pub open spec fn known_event_id(id: i32) -> bool {
    id == EVENT_SHUTDOWN || id == EVENT_LOG_MESSAGE || id == EVENT_GET_PROPERTY_REPLY || id
        == EVENT_SET_PROPERTY_REPLY || id == EVENT_COMMAND_REPLY || id == EVENT_START_FILE || id
        == EVENT_END_FILE || id == EVENT_FILE_LOADED || id == EVENT_IDLE || id == EVENT_TICK || id
        == EVENT_CLIENT_MESSAGE || id == EVENT_VIDEO_RECONFIG || id == EVENT_AUDIO_RECONFIG || id
        == EVENT_SEEK || id == EVENT_PLAYBACK_RESTART || id == EVENT_PROPERTY_CHANGE || id
        == EVENT_QUEUE_OVERFLOW || id == EVENT_HOOK
}

/// The event-id codes the native protocol flags as deprecated.
pub open spec fn deprecated_event_id(id: i32) -> bool {
    id == EVENT_IDLE || id == EVENT_TICK
}

pub fn is_known_event_id(id: i32) -> (r: bool)
    ensures
        r == known_event_id(id),
{
    id == EVENT_SHUTDOWN || id == EVENT_LOG_MESSAGE || id == EVENT_GET_PROPERTY_REPLY || id
        == EVENT_SET_PROPERTY_REPLY || id == EVENT_COMMAND_REPLY || id == EVENT_START_FILE || id
        == EVENT_END_FILE || id == EVENT_FILE_LOADED || id == EVENT_IDLE || id == EVENT_TICK || id
        == EVENT_CLIENT_MESSAGE || id == EVENT_VIDEO_RECONFIG || id == EVENT_AUDIO_RECONFIG || id
        == EVENT_SEEK || id == EVENT_PLAYBACK_RESTART || id == EVENT_PROPERTY_CHANGE || id
        == EVENT_QUEUE_OVERFLOW || id == EVENT_HOOK
}

/// Whether a delivered event is of a deprecated kind.
pub open spec fn deprecated_event(e: EventModel) -> bool {
    e is Idle || e is Tick
}

pub fn is_deprecated_event_id(id: i32) -> (r: bool)
    ensures
        r == deprecated_event_id(id),
{
    id == EVENT_IDLE || id == EVENT_TICK
}

/// The name a property-change notification is delivered under: the name
/// held by the observation registered under the notification's reply id,
/// or, for an unobserved id, the name decoded from the envelope itself.
pub open spec fn prop_name_spec(
    obs: Seq<(u64, Seq<char>, Format)>,
    id: u64,
    raw_name: Seq<u8>,
) -> Seq<char> {
    match lookup_spec(obs, id) {
        Some((nm, _)) => nm,
        None => decoded_text(raw_name),
    }
}

/// Element-wise decoding of client-message arguments.
pub open spec fn args_text_model(args: Seq<Vec<u8>>) -> Seq<Seq<char>> {
    args.map(|i: int, b: Vec<u8>| decoded_text(b@))
}

/// What decoding one envelope yields, given the observation table's
/// contents. An envelope with a negative status becomes `Error::Native`
/// with the code kept; otherwise the envelope's payload is decoded by the
/// shape its event id announces, and a payload of the wrong shape is
/// malformed. Property changes are named through `prop_name_spec`.
pub open spec fn decode_event_spec(raw: RawEvent, obs: Seq<(u64, Seq<char>, Format)>) -> Result<
    EventModel,
    Error,
> {
    if raw.error < 0 {
        Err(Error::Native(raw.error))
    } else if raw.event_id == EVENT_SHUTDOWN {
        Ok(EventModel::Shutdown)
    } else if raw.event_id == EVENT_LOG_MESSAGE {
        match raw.data {
            RawEventData::LogMessage { prefix, level, text, log_level } => Ok(
                EventModel::LogMessage {
                    prefix: decoded_text(prefix@),
                    level: decoded_text(level@),
                    text: decoded_text(text@),
                    log_level,
                },
            ),
            _ => Err(Error::Decode(DecodeError::Malformed)),
        }
    } else if raw.event_id == EVENT_GET_PROPERTY_REPLY {
        match raw.data {
            RawEventData::Property(p) => match MpvFormat::from_code_spec(p.format) {
                Some(f) => match from_raw_spec(f, p.data) {
                    Ok(d) => Ok(
                        EventModel::GetPropertyReply {
                            reply: raw.reply_userdata,
                            name: decoded_text(p.name@),
                            data: d,
                        },
                    ),
                    Err(e) => Err(Error::Decode(e)),
                },
                None => Err(Error::Decode(DecodeError::UnsupportedFormat(p.format))),
            },
            _ => Err(Error::Decode(DecodeError::Malformed)),
        }
    } else if raw.event_id == EVENT_SET_PROPERTY_REPLY {
        Ok(EventModel::SetPropertyReply(raw.reply_userdata))
    } else if raw.event_id == EVENT_COMMAND_REPLY {
        Ok(EventModel::CommandReply(raw.reply_userdata))
    } else if raw.event_id == EVENT_START_FILE {
        Ok(EventModel::StartFile)
    } else if raw.event_id == EVENT_END_FILE {
        match raw.data {
            RawEventData::EndFile(reason) => Ok(EventModel::EndFile(reason)),
            _ => Err(Error::Decode(DecodeError::Malformed)),
        }
    } else if raw.event_id == EVENT_FILE_LOADED {
        Ok(EventModel::FileLoaded)
    } else if raw.event_id == EVENT_IDLE {
        Ok(EventModel::Idle)
    } else if raw.event_id == EVENT_TICK {
        Ok(EventModel::Tick)
    } else if raw.event_id == EVENT_CLIENT_MESSAGE {
        match raw.data {
            RawEventData::ClientMessage(args) => Ok(
                EventModel::ClientMessage(args_text_model(args@)),
            ),
            _ => Err(Error::Decode(DecodeError::Malformed)),
        }
    } else if raw.event_id == EVENT_VIDEO_RECONFIG {
        Ok(EventModel::VideoReconfig)
    } else if raw.event_id == EVENT_AUDIO_RECONFIG {
        Ok(EventModel::AudioReconfig)
    } else if raw.event_id == EVENT_SEEK {
        Ok(EventModel::Seek)
    } else if raw.event_id == EVENT_PLAYBACK_RESTART {
        Ok(EventModel::PlaybackRestart)
    } else if raw.event_id == EVENT_PROPERTY_CHANGE {
        match raw.data {
            RawEventData::Property(p) => match MpvFormat::from_code_spec(p.format) {
                Some(f) => match from_raw_spec(f, p.data) {
                    Ok(d) => Ok(
                        EventModel::PropertyChange {
                            id: raw.reply_userdata,
                            name: prop_name_spec(obs, raw.reply_userdata, p.name@),
                            data: d,
                        },
                    ),
                    Err(e) => Err(Error::Decode(e)),
                },
                None => Err(Error::Decode(DecodeError::UnsupportedFormat(p.format))),
            },
            _ => Err(Error::Decode(DecodeError::Malformed)),
        }
    } else if raw.event_id == EVENT_QUEUE_OVERFLOW {
        Ok(EventModel::QueueOverflow)
    } else if raw.event_id == EVENT_HOOK {
        match raw.data {
            RawEventData::Hook { name, id } => Ok(
                EventModel::Hook { name: decoded_text(name@), id },
            ),
            _ => Err(Error::Decode(DecodeError::Malformed)),
        }
    } else {
        Err(Error::Decode(DecodeError::Malformed))
    }
}

/// Observation correlation: a property-change notification whose reply id
/// is registered as (`name`, fmt) is delivered under that `name` from the
/// table — not under whatever name the envelope itself carries — whenever
/// its payload decodes.
pub proof fn lemma_observation_correlation(
    obs: Seq<(u64, Seq<char>, Format)>,
    raw: RawEvent,
    name: Seq<char>,
    fmt: Format,
    d: DataModel,
)
    requires
        raw.event_id == EVENT_PROPERTY_CHANGE,
        raw.error >= 0,
        raw.data is Property,
        lookup_spec(obs, raw.reply_userdata) == Some((name, fmt)),
        ({
            let p = raw.data->Property_0;
            MpvFormat::from_code_spec(p.format) matches Some(f) && from_raw_spec(f, p.data)
                == Ok::<DataModel, DecodeError>(d)
        }),
    ensures
        decode_event_spec(raw, obs) == Ok::<EventModel, Error>(
            EventModel::PropertyChange { id: raw.reply_userdata, name, data: d },
        ),
{
}

/// A notification for an unobserved id still decodes — it is delivered
/// under the name the envelope itself carries, rather than failing.
pub proof fn lemma_unobserved_notification(
    obs: Seq<(u64, Seq<char>, Format)>,
    raw: RawEvent,
    d: DataModel,
)
    requires
        raw.event_id == EVENT_PROPERTY_CHANGE,
        raw.error >= 0,
        raw.data is Property,
        lookup_spec(obs, raw.reply_userdata) is None,
        ({
            let p = raw.data->Property_0;
            MpvFormat::from_code_spec(p.format) matches Some(f) && from_raw_spec(f, p.data)
                == Ok::<DataModel, DecodeError>(d)
        }),
    ensures
        decode_event_spec(raw, obs) == Ok::<EventModel, Error>(
            EventModel::PropertyChange {
                id: raw.reply_userdata,
                name: decoded_text(raw.data->Property_0.name@),
                data: d,
            },
        ),
{
}

/// The ghost model of a decoded event result.
pub open spec fn event_result_model(r: Result<Event, Error>) -> Result<EventModel, Error> {
    match r {
        Ok(e) => Ok(event_model(e)),
        Err(e) => Err(e),
    }
}

/// Decodes one native envelope into a typed event, exactly as
/// `decode_event_spec` says. The observation table supplies the name for
/// property-change notifications; the envelope's own name bytes are the
/// fallback for an unobserved id.
#[verifier::loop_isolation(false)]
pub fn decode_event(raw: &RawEvent, table: &ObservationTable) -> (out: Result<Event, Error>)
    ensures
        event_result_model(out) == decode_event_spec(*raw, table@),
{
    if raw.error < 0 {
        return Err(Error::Native(raw.error));
    }
    if raw.event_id == EVENT_SHUTDOWN {
        return Ok(Event::Shutdown);
    }
    if raw.event_id == EVENT_LOG_MESSAGE {
        return match &raw.data {
            RawEventData::LogMessage { prefix, level, text, log_level } => Ok(
                Event::LogMessage {
                    prefix: mpv_cstr_to_string(prefix),
                    level: mpv_cstr_to_string(level),
                    text: mpv_cstr_to_string(text),
                    log_level: *log_level,
                },
            ),
            _ => Err(Error::Decode(DecodeError::Malformed)),
        };
    }
    if raw.event_id == EVENT_GET_PROPERTY_REPLY {
        return match &raw.data {
            RawEventData::Property(p) => match property_from_raw(p) {
                Ok((name, data)) => Ok(
                    Event::GetPropertyReply { reply: raw.reply_userdata, name, data },
                ),
                Err(e) => Err(Error::Decode(e)),
            },
            _ => Err(Error::Decode(DecodeError::Malformed)),
        };
    }
    if raw.event_id == EVENT_SET_PROPERTY_REPLY {
        return Ok(Event::SetPropertyReply(raw.reply_userdata));
    }
    if raw.event_id == EVENT_COMMAND_REPLY {
        return Ok(Event::CommandReply(raw.reply_userdata));
    }
    if raw.event_id == EVENT_START_FILE {
        return Ok(Event::StartFile);
    }
    if raw.event_id == EVENT_END_FILE {
        return match &raw.data {
            RawEventData::EndFile(reason) => Ok(Event::EndFile(*reason)),
            _ => Err(Error::Decode(DecodeError::Malformed)),
        };
    }
    if raw.event_id == EVENT_FILE_LOADED {
        return Ok(Event::FileLoaded);
    }
    if raw.event_id == EVENT_IDLE {
        return Ok(Event::Idle);
    }
    if raw.event_id == EVENT_TICK {
        return Ok(Event::Tick);
    }
    if raw.event_id == EVENT_CLIENT_MESSAGE {
        return match &raw.data {
            RawEventData::ClientMessage(args) => {
                let mut texts: Vec<String> = Vec::new();
                let mut i: usize = 0;
                while i < args.len()
                    invariant
                        i <= args@.len(),
                        texts@.len() == i,
                        forall|j: int| 0 <= j < i ==> #[trigger] texts@[j]@ == decoded_text(
                            args@[j]@,
                        ),
                    decreases args@.len() - i,
                {
                    let t = mpv_cstr_to_string(&args[i]);
                    texts.push(t);
                    i += 1;
                }
                proof {
                    assert(strings_model(texts@) =~= args_text_model(args@));
                }
                Ok(Event::ClientMessage(texts))
            },
            _ => Err(Error::Decode(DecodeError::Malformed)),
        };
    }
    if raw.event_id == EVENT_VIDEO_RECONFIG {
        return Ok(Event::VideoReconfig);
    }
    if raw.event_id == EVENT_AUDIO_RECONFIG {
        return Ok(Event::AudioReconfig);
    }
    if raw.event_id == EVENT_SEEK {
        return Ok(Event::Seek);
    }
    if raw.event_id == EVENT_PLAYBACK_RESTART {
        return Ok(Event::PlaybackRestart);
    }
    if raw.event_id == EVENT_PROPERTY_CHANGE {
        return match &raw.data {
            RawEventData::Property(p) => match MpvFormat::from_val(p.format) {
                Some(f) => match Data::from_raw(f, &p.data) {
                    Ok(data) => {
                        let name: String = match table.lookup(raw.reply_userdata) {
                            Some(entry) => entry.name.clone(),
                            None => mpv_cstr_to_string(&p.name),
                        };
                        Ok(Event::PropertyChange { id: raw.reply_userdata, name, data })
                    },
                    Err(e) => Err(Error::Decode(e)),
                },
                None => Err(Error::Decode(DecodeError::UnsupportedFormat(p.format))),
            },
            _ => Err(Error::Decode(DecodeError::Malformed)),
        };
    }
    if raw.event_id == EVENT_QUEUE_OVERFLOW {
        return Ok(Event::QueueOverflow);
    }
    if raw.event_id == EVENT_HOOK {
        return match &raw.data {
            RawEventData::Hook { name, id } => Ok(
                Event::Hook { name: mpv_cstr_to_string(name), id: *id },
            ),
            _ => Err(Error::Decode(DecodeError::Malformed)),
        };
    }
    Err(Error::Decode(DecodeError::Malformed))
}

} // verus!
