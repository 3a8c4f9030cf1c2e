//! Tests of the error table, format codes, events, and command values.

use mpv::commands::{Command, File, FileState};
use mpv::error::{mpv_err, Error, MpvError};
use mpv::event_loop::EventLoop;
use mpv::events::Event;
use mpv::format::{Format, MpvFormat};
use mpv::native::{RawEvent, RawEventData};

#[test]
fn error_codes_round_trip() {
    for code in -20..0 {
        let e = MpvError::from_i32(code).unwrap();
        assert_eq!(e.as_val(), code);
    }
    assert!(MpvError::from_i32(-21).is_none());
    assert!(MpvError::from_i32(0).is_none());
    assert!(MpvError::from_i32(1).is_none());
}

#[test]
fn error_strings() {
    assert_eq!(MpvError::EventQueueFull.error_string(), "event queue full");
    assert_eq!(MpvError::PropertyNotFound.error_string(), "property not found");
    assert_eq!(MpvError::Generic.error_string(), "something happened");
}

#[test]
fn mpv_err_translates_status() {
    assert_eq!(mpv_err(5u32, 0), Ok(5u32));
    assert_eq!(mpv_err((), -8), Err(Error::Native(-8)));
}

#[test]
fn format_codes() {
    assert_eq!(Format::Int64.as_mpv_format(), MpvFormat::Int64);
    assert_eq!(Format::String.as_mpv_format(), MpvFormat::String);
    assert_eq!(Format::OsdString.as_mpv_format(), MpvFormat::OsdString);
    assert_eq!(Format::Flag.as_mpv_format(), MpvFormat::Flag);
    assert_eq!(Format::Double.as_mpv_format(), MpvFormat::Double);
    for code in 0..10 {
        assert_eq!(MpvFormat::from_val(code).unwrap().as_val(), code);
    }
    assert!(MpvFormat::from_val(10).is_none());
}

#[test]
fn file_state_values() {
    assert_eq!(FileState::Replace.val(), "replace");
    assert_eq!(FileState::Append.val(), "append");
    assert_eq!(FileState::AppendPlay.val(), "append-play");
}

#[test]
fn command_and_file_builders() {
    let c = Command::new("loadfile".to_string(), vec!["a.mkv".to_string()]);
    assert_eq!(c.name, "loadfile");
    assert_eq!(c.args, vec!["a.mkv".to_string()]);
    let f = File::new("a.mkv".to_string(), FileState::Append, None);
    assert_eq!(f.path, "a.mkv");
    assert_eq!(f.state, FileState::Append);
    assert!(f.options.is_none());
}

#[test]
fn log_message_event_decodes_all_fields() {
    let mut el = EventLoop::new();
    el.push_native_event(RawEvent {
        event_id: 2,
        error: 0,
        reply_userdata: 0,
        data: RawEventData::LogMessage {
            prefix: b"cplayer".to_vec(),
            level: b"info".to_vec(),
            text: b"playback started".to_vec(),
            log_level: 40,
        },
    });
    match el.wait_event(0).unwrap() {
        Event::LogMessage { prefix, level, text, log_level } => {
            assert_eq!(prefix, "cplayer");
            assert_eq!(level, "info");
            assert_eq!(text, "playback started");
            assert_eq!(log_level, 40);
        }
        other => panic!("expected a log message, got {:?}", other),
    }
}

#[test]
fn client_message_event_decodes_args_in_order() {
    let mut el = EventLoop::new();
    el.push_native_event(RawEvent {
        event_id: 16,
        error: 0,
        reply_userdata: 0,
        data: RawEventData::ClientMessage(vec![b"key".to_vec(), b"binding".to_vec()]),
    });
    match el.wait_event(0).unwrap() {
        Event::ClientMessage(args) => {
            assert_eq!(args, vec!["key".to_string(), "binding".to_string()]);
        }
        other => panic!("expected a client message, got {:?}", other),
    }
}

#[test]
fn hook_event_decodes() {
    let mut el = EventLoop::new();
    el.push_native_event(RawEvent {
        event_id: 25,
        error: 0,
        reply_userdata: 0,
        data: RawEventData::Hook { name: b"on_load".to_vec(), id: 3 },
    });
    match el.wait_event(0).unwrap() {
        Event::Hook { name, id } => {
            assert_eq!(name, "on_load");
            assert_eq!(id, 3);
        }
        other => panic!("expected a hook, got {:?}", other),
    }
}
