use mpv_socket::event::{Event, PropertyChangeEvent, Reason};
use mpv_socket::{
    Command, CommandResponse, Error, EventIter, Expected, Inbound, IoFailure, MpvSocket,
    OpenAttempts, Property, Pull, Request, RequestId, TryFromValue, Value, ValueKind,
    ERROR_NO_DATA, ERROR_PIPE_BUSY,
};

fn from_json(v: serde_json::Value) -> Value {
    match v {
        serde_json::Value::Null => Value::Null,
        serde_json::Value::Bool(b) => Value::Bool(b),
        serde_json::Value::Number(n) => {
            if let Some(i) = n.as_i64() {
                Value::Int(i)
            } else if let Some(u) = n.as_u64() {
                Value::from_u64(u).expect("integer out of range")
            } else {
                Value::Float(n.as_f64().unwrap().to_bits())
            }
        }
        serde_json::Value::String(s) => Value::String(s),
        serde_json::Value::Array(items) => Value::Array(items.into_iter().map(from_json).collect()),
        serde_json::Value::Object(map) => {
            Value::Object(map.into_iter().map(|(k, v)| (k, from_json(v))).collect())
        }
    }
}

fn line(text: &str) -> Inbound {
    Inbound::Line(from_json(serde_json::from_str(text).unwrap()))
}

fn io_failure(code: Option<i32>) -> Error {
    Error::Io(IoFailure {
        raw_os_error: code,
        message: String::from("failure"),
    })
}

#[test]
fn request_ids_increment_by_one() {
    let mut mpv = MpvSocket::new();
    let first = mpv.client_name().unwrap();
    let second = mpv.get_version().unwrap();
    let third = mpv.get_time_us().unwrap();
    assert_eq!(first.request_id, 1);
    assert_eq!(second.request_id, 2);
    assert_eq!(third.request_id, 3);
    assert_eq!(first.command, Command::ClientName);
    assert_eq!(second.command, Command::GetVersion);
    assert_eq!(third.command, Command::GetTimeUs);
}

#[test]
fn request_ids_are_not_moved_by_replies() {
    let mut mpv = MpvSocket::new();
    let first = mpv.client_name().unwrap();
    let reply = mpv.receive_reply(
        first.request_id,
        line(r#"{"request_id":1,"error":"success","data":"ipc-3"}"#),
    );
    assert_eq!(reply, Some(Ok(Value::String(String::from("ipc-3")))));
    let second = mpv.get_property(Property::Volume).unwrap();
    assert_eq!(second.request_id, 2);
}

#[test]
fn request_ids_wrap_to_the_minimum() {
    let mut ids = RequestId::new();
    assert_eq!(ids.advance(i64::MAX), i64::MAX);
    assert_eq!(ids.next(), i64::MIN);
    assert_eq!(ids.next(), i64::MIN + 1);
}

#[test]
fn success_reply_gives_its_data() {
    let mut mpv = MpvSocket::new();
    let request = mpv.get_property(Property::Volume).unwrap();
    assert_eq!(request.request_id, 1);
    let reply = mpv.receive_reply(
        request.request_id,
        line(r#"{"request_id":1,"error":"success","data":50.0}"#),
    );
    assert_eq!(reply, Some(Ok(Value::Float(50.0f64.to_bits()))));
    let volume = f64::from_bits(match reply.unwrap().unwrap() {
        Value::Float(bits) => bits,
        other => panic!("not a float: {:?}", other),
    });
    assert_eq!(volume, 50.0);
}

#[test]
fn error_reply_gives_a_remote_error() {
    let mut mpv = MpvSocket::new();
    let request = mpv.get_property(Property::Filename).unwrap();
    let reply = mpv.receive_reply(
        request.request_id,
        line(r#"{"request_id":1,"error":"property unavailable"}"#),
    );
    assert_eq!(
        reply,
        Some(Err(Error::Remote(String::from("property unavailable"))))
    );
}

#[test]
fn reply_without_error_is_unknown() {
    let mut mpv = MpvSocket::new();
    let request = mpv.client_name().unwrap();
    let reply = mpv.receive_reply(request.request_id, line(r#"{"request_id":1,"data":5}"#));
    assert_eq!(reply, Some(Err(Error::UnknownResponse)));
}

#[test]
fn other_lines_are_skipped_while_waiting() {
    let mut mpv = MpvSocket::new();
    let request = mpv.client_name().unwrap();
    let other_id = mpv.receive_reply(
        request.request_id,
        line(r#"{"request_id":7,"error":"success","data":1}"#),
    );
    assert_eq!(other_id, None);
    let no_id = mpv.receive_reply(request.request_id, line(r#"{"error":"success"}"#));
    assert_eq!(no_id, None);
    let event = mpv.receive_reply(
        request.request_id,
        line(r#"{"event":"property-change","id":1,"name":"volume","data":52.0}"#),
    );
    assert_eq!(event, None);
    assert!(!mpv.is_closed());
}

#[test]
fn malformed_reply_is_an_error() {
    let mut mpv = MpvSocket::new();
    let request = mpv.client_name().unwrap();
    let not_object = mpv.receive_reply(request.request_id, line("[1, 2]"));
    assert!(matches!(not_object, Some(Err(Error::Malformed(_)))));
    let bad_id = mpv.receive_reply(request.request_id, line(r#"{"request_id":"one"}"#));
    assert!(matches!(bad_id, Some(Err(Error::Malformed(_)))));
    let bad_error = mpv.receive_reply(request.request_id, line(r#"{"request_id":1,"error":3}"#));
    assert!(matches!(bad_error, Some(Err(Error::Malformed(_)))));
}

#[test]
fn failed_read_is_returned_as_is() {
    let mut mpv = MpvSocket::new();
    let request = mpv.client_name().unwrap();
    let reply = mpv.receive_reply(request.request_id, Inbound::Failed(io_failure(Some(5))));
    assert_eq!(reply, Some(Err(io_failure(Some(5)))));
    assert!(!mpv.is_closed());
}

#[test]
fn zero_length_read_closes_the_connection() {
    let mut mpv = MpvSocket::new();
    let request = mpv.client_name().unwrap();
    let reply = mpv.receive_reply(request.request_id, Inbound::Closed);
    assert_eq!(reply, Some(Err(Error::SocketClosed)));
    assert!(mpv.is_closed());
    assert_eq!(mpv.client_name(), Err(Error::SocketClosed));
}

#[test]
fn set_property_round_trip() {
    let mut mpv = MpvSocket::new();
    let request = mpv
        .set_property(Property::Pause, Value::Bool(true))
        .unwrap();
    assert_eq!(
        request,
        Request {
            command: Command::SetProperty(Property::Pause, Value::Bool(true)),
            request_id: 1,
        }
    );
    let response = match line(r#"{"error":"success"}"#) {
        Inbound::Line(v) => CommandResponse::from_value(&v).unwrap(),
        _ => unreachable!(),
    };
    assert_eq!(response.into_result(), Ok(Value::Null));
    let reply = mpv.receive_reply(1, line(r#"{"request_id":1,"error":"success"}"#));
    assert_eq!(reply, Some(Ok(Value::Null)));
}

#[test]
fn subscription_delivers_changes() {
    let mut mpv = MpvSocket::new();
    let request = mpv.observe_property(Property::Volume).unwrap();
    assert_eq!(request.command, Command::ObserveProperty(1, Property::Volume));
    let iter = EventIter::new(1);
    let pull = iter.next(
        &mut mpv,
        line(r#"{"event":"property-change","id":1,"name":"volume","data":52.0}"#),
    );
    assert_eq!(
        pull,
        Pull::Item(Ok(PropertyChangeEvent {
            name: Property::Volume,
            data: Value::Float(52.0f64.to_bits()),
        }))
    );
    let absent = iter.next(
        &mut mpv,
        line(r#"{"event":"property-change","id":1,"name":"volume","data":null}"#),
    );
    assert_eq!(absent, Pull::Skip);
    let missing = iter.next(
        &mut mpv,
        line(r#"{"event":"property-change","id":1,"name":"volume"}"#),
    );
    assert_eq!(missing, Pull::Skip);
}

#[test]
fn subscription_skips_other_observers_and_events() {
    let mut mpv = MpvSocket::new();
    let iter = EventIter::new(2);
    let foreign = iter.next(
        &mut mpv,
        line(r#"{"event":"property-change","id":3,"name":"pause","data":true}"#),
    );
    assert_eq!(foreign, Pull::Skip);
    let second = iter.next(
        &mut mpv,
        line(r#"{"event":"property-change","id":2,"name":"pause","data":true}"#),
    );
    assert_eq!(
        second,
        Pull::Item(Ok(PropertyChangeEvent {
            name: Property::Pause,
            data: Value::Bool(true),
        }))
    );
    assert_eq!(iter.next(&mut mpv, line(r#"{"event":"seek"}"#)), Pull::Skip);
    assert_eq!(iter.next(&mut mpv, line(r#"{"event":"something-new"}"#)), Pull::Skip);
    let reply = iter.next(&mut mpv, line(r#"{"request_id":4,"error":"success"}"#));
    assert!(matches!(reply, Pull::Item(Err(Error::Malformed(_)))));
    assert!(!mpv.is_closed());
}

#[test]
fn subscription_reports_errors_without_closing() {
    let mut mpv = MpvSocket::new();
    let iter = EventIter::new(1);
    let remote = iter.next(
        &mut mpv,
        line(r#"{"event":"property-change","id":1,"name":"volume","data":1,"error":"bad"}"#),
    );
    assert_eq!(remote, Pull::Item(Err(Error::Remote(String::from("bad")))));
    let failed = iter.next(&mut mpv, Inbound::Failed(io_failure(None)));
    assert_eq!(failed, Pull::Item(Err(io_failure(None))));
    let unknown_property = iter.next(
        &mut mpv,
        line(r#"{"event":"property-change","id":1,"name":"no-such-property","data":1}"#),
    );
    assert!(matches!(unknown_property, Pull::Item(Err(Error::Malformed(_)))));
    assert!(!mpv.is_closed());
}

#[test]
fn shutdown_closes_for_good() {
    let mut mpv = MpvSocket::new();
    let iter = EventIter::new(1);
    assert_eq!(iter.next(&mut mpv, line(r#"{"event":"shutdown"}"#)), Pull::Skip);
    assert!(mpv.is_closed());
    assert!(iter.is_finished(&mpv));
    assert_eq!(mpv.get_version(), Err(Error::SocketClosed));
    assert_eq!(
        mpv.send_command(Command::UnobserveProperty(1)),
        Err(Error::SocketClosed)
    );
    let after = iter.next(
        &mut mpv,
        line(r#"{"event":"property-change","id":1,"name":"volume","data":52.0}"#),
    );
    assert_eq!(after, Pull::End);
    assert!(iter.unobserve_commands(&mpv).is_empty());
}

#[test]
fn end_file_with_quit_closes() {
    let mut mpv = MpvSocket::new();
    let iter = EventIter::new(1);
    assert_eq!(
        iter.next(&mut mpv, line(r#"{"event":"end-file","reason":"eof"}"#)),
        Pull::Skip
    );
    assert!(!mpv.is_closed());
    assert_eq!(
        iter.next(&mut mpv, line(r#"{"event":"end-file","reason":"quit"}"#)),
        Pull::Skip
    );
    assert!(mpv.is_closed());
}

#[test]
fn zero_length_read_ends_the_subscription() {
    let mut mpv = MpvSocket::new();
    let iter = EventIter::new(1);
    assert_eq!(iter.next(&mut mpv, Inbound::Closed), Pull::End);
    assert!(mpv.is_closed());
}

#[test]
fn teardown_unobserves_each_id_in_order() {
    let mut mpv = MpvSocket::new();
    let commands =
        MpvSocket::observe_properties(&[Property::PlaybackTime, Property::TimeRemaining]);
    assert_eq!(
        commands,
        vec![
            Command::ObserveProperty(1, Property::PlaybackTime),
            Command::ObserveProperty(2, Property::TimeRemaining),
        ]
    );
    let iter = EventIter::new(commands.len() as i64);
    assert_eq!(iter.num_observed_properties(), 2);
    let teardown = iter.unobserve_commands(&mpv);
    assert_eq!(
        teardown,
        vec![Command::UnobserveProperty(1), Command::UnobserveProperty(2)]
    );
    let sent: Vec<i64> = teardown
        .into_iter()
        .map(|c| mpv.send_command(c).unwrap().request_id)
        .collect();
    assert_eq!(sent, vec![1, 2]);
}

#[test]
fn teardown_on_closed_connection_sends_nothing() {
    let mut mpv = MpvSocket::new();
    let iter = EventIter::new(2);
    assert_eq!(iter.next(&mut mpv, line(r#"{"event":"shutdown"}"#)), Pull::Skip);
    assert_eq!(iter.unobserve_commands(&mpv), Vec::<Command>::new());
}

#[test]
fn teardown_swallows_only_a_closing_pipe() {
    assert_eq!(EventIter::teardown_error(io_failure(Some(ERROR_NO_DATA))), None);
    assert_eq!(
        EventIter::teardown_error(io_failure(Some(5))),
        Some(io_failure(Some(5)))
    );
    assert_eq!(
        EventIter::teardown_error(Error::Remote(String::from("error running command"))),
        Some(Error::Remote(String::from("error running command")))
    );
}

#[test]
fn busy_pipe_is_tried_five_times() {
    let mut attempts = OpenAttempts::new();
    for _ in 0..4 {
        assert!(attempts.retry_after(Some(ERROR_PIPE_BUSY)));
    }
    assert!(!attempts.retry_after(Some(ERROR_PIPE_BUSY)));
    assert!(!attempts.retry_after(Some(ERROR_PIPE_BUSY)));
}

#[test]
fn other_open_failures_are_not_retried() {
    let mut attempts = OpenAttempts::new();
    assert!(!attempts.retry_after(Some(2)));
    assert!(!attempts.retry_after(None));
    assert!(attempts.retry_after(Some(ERROR_PIPE_BUSY)));
}

#[test]
fn typed_extraction() {
    assert_eq!(<bool as TryFromValue>::try_from(Value::Bool(true)), Ok(true));
    assert_eq!(
        <bool as TryFromValue>::try_from(Value::Int(1)),
        Err(Error::TypeMismatch {
            expected: Expected::Bool,
            found: ValueKind::Int
        })
    );
    assert_eq!(<i64 as TryFromValue>::try_from(Value::Int(-4)), Ok(-4));
    assert_eq!(<u64 as TryFromValue>::try_from(Value::Int(4)), Ok(4));
    assert_eq!(
        <u64 as TryFromValue>::try_from(Value::Int(-4)),
        Err(Error::TypeMismatch {
            expected: Expected::U64,
            found: ValueKind::Int
        })
    );
    assert_eq!(
        <String as TryFromValue>::try_from(Value::String(String::from("ipc-1"))),
        Ok(String::from("ipc-1"))
    );
    assert_eq!(
        <String as TryFromValue>::try_from(Value::Null),
        Err(Error::TypeMismatch {
            expected: Expected::String,
            found: ValueKind::Null
        })
    );
    assert_eq!(
        <Vec<Value> as TryFromValue>::try_from(Value::Array(vec![Value::Int(1)])),
        Ok(vec![Value::Int(1)])
    );
    assert_eq!(
        <Vec<(String, Value)> as TryFromValue>::try_from(Value::Float(1)),
        Err(Error::TypeMismatch {
            expected: Expected::Object,
            found: ValueKind::Float
        })
    );
    assert_eq!(
        <Value as TryFromValue>::try_from(Value::Null),
        Ok(Value::Null)
    );
}

#[test]
fn unsigned_integers_beyond_i64_are_refused() {
    assert_eq!(Value::from_u64(i64::MAX as u64), Some(Value::Int(i64::MAX)));
    assert_eq!(Value::from_u64(i64::MAX as u64 + 1), None);
}

#[test]
fn property_names_round_trip() {
    assert_eq!(Property::FilenameNoExt.as_str(), "filename/no-ext");
    assert_eq!(Property::from_name("filename/no-ext"), Some(Property::FilenameNoExt));
    assert_eq!(Property::from_name("playback-time"), Some(Property::PlaybackTime));
    assert_eq!(Property::from_name("playback_time"), None);
    assert_eq!(
        Property::Volume.to_value(),
        Value::String(String::from("volume"))
    );
}

#[test]
fn command_names_and_params() {
    assert_eq!(Command::UnobserveProperty(3).name(), "unobserve_property");
    assert_eq!(Command::UnobserveProperty(3).params(), vec![Value::Int(3)]);
    assert_eq!(Command::RequestLogMessages.params(), Vec::<Value>::new());
    let value = Value::Array(vec![Value::String(String::from("a")), Value::Null]);
    assert_eq!(
        Command::SetProperty(Property::Path, value.clone()).params(),
        vec![Value::String(String::from("path")), value]
    );
}

#[test]
fn object_fields_and_deep_copies() {
    let v = from_json(serde_json::from_str(r#"{"a":1,"b":{"c":[true,null]}}"#).unwrap());
    assert_eq!(v.get("a"), Some(&Value::Int(1)));
    assert_eq!(v.get("z"), None);
    assert_eq!(Value::Int(1).get("a"), None);
    let copy = v.clone();
    assert_eq!(copy, v);
    assert_eq!(v.kind(), ValueKind::Object);
    assert!(Value::Null.is_null());
}

#[test]
fn events_decode_their_fields() {
    let end = match line(
        r#"{"event":"end-file","reason":"error","playlist_entry_id":4,"file_error":"no such file"}"#,
    ) {
        Inbound::Line(v) => Event::from_value(&v).unwrap(),
        _ => unreachable!(),
    };
    match end {
        Event::EndFile(e) => {
            assert_eq!(e.reason, Some(Reason::Error));
            assert_eq!(e.playlist_entry_id, Some(4));
            assert_eq!(e.file_error, Some(String::from("no such file")));
            assert_eq!(e.playlist_insert_id, None);
        }
        other => panic!("not end-file: {:?}", other),
    }
    let bad_reason = match line(r#"{"event":"end-file","reason":"later"}"#) {
        Inbound::Line(v) => Event::from_value(&v),
        _ => unreachable!(),
    };
    assert!(matches!(bad_reason, Err(Error::Malformed(_))));
    let log = match line(r#"{"event":"log-message","prefix":"cplayer","level":"info","text":"hi\n"}"#) {
        Inbound::Line(v) => Event::from_value(&v).unwrap(),
        _ => unreachable!(),
    };
    assert!(matches!(log, Event::LogMessage(ref m) if m.prefix == "cplayer" && m.text == "hi\n"));
    let no_name = match line(r#"{"id":1}"#) {
        Inbound::Line(v) => Event::from_value(&v),
        _ => unreachable!(),
    };
    assert!(matches!(no_name, Err(Error::Malformed(_))));
    let other = match line(r#"{"event":"brand-new"}"#) {
        Inbound::Line(v) => Event::from_value(&v).unwrap(),
        _ => unreachable!(),
    };
    assert_eq!(other, Event::Other);
}
