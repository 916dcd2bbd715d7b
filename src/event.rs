use vstd::prelude::*;

use crate::error::Error;
use crate::property::{property_name, Property};
use crate::protocol::{
    is_optional_int, is_optional_str, optional_int, optional_str, read_optional_int,
    read_optional_str, text_of,
};
use crate::value::{field, text_eq, Json, Value};

verus! {

/// Why playback of a file ended.
#[derive(Debug, Copy, Clone, PartialEq, Eq, Structural)]
pub enum Reason {
    /// The file has ended.
    Eof,
    /// Playback was ended by a command.
    Stop,
    /// Playback was ended by the quit command.
    Quit,
    /// An error happened.
    Error,
    /// Happens with playlists and similar.
    Redirect,
    /// Unknown reason.
    Unknown,
}

/// The name by which the protocol knows reason `r`.
pub open spec fn reason_name(r: Reason) -> Seq<char> {
    match r {
        Reason::Eof => "eof"@,
        Reason::Stop => "stop"@,
        Reason::Quit => "quit"@,
        Reason::Error => "error"@,
        Reason::Redirect => "redirect"@,
        Reason::Unknown => "unknown"@,
    }
}

impl Reason {
    /// The reason that the protocol knows by `name`, if any.
    pub fn from_name(name: &str) -> (r: Option<Reason>)
        ensures
            match r {
                Some(x) => reason_name(x) == name@,
                None => forall|x: Reason| reason_name(x) != name@,
            },
    {
        if text_eq(name, "eof") {
            return Some(Reason::Eof);
        }
        if text_eq(name, "stop") {
            return Some(Reason::Stop);
        }
        if text_eq(name, "quit") {
            return Some(Reason::Quit);
        }
        if text_eq(name, "error") {
            return Some(Reason::Error);
        }
        if text_eq(name, "redirect") {
            return Some(Reason::Redirect);
        }
        if text_eq(name, "unknown") {
            return Some(Reason::Unknown);
        }
        None
    }
}

/// Payload of [`Event::PropertyChange`].
#[derive(Debug, PartialEq)]
pub struct PropertyChangeEvent {
    /// The property whose value changed.
    pub name: Property,
    /// The new value; the absent value while the player shuts down, so match
    /// on it rather than unwrap it.
    pub data: Value,
}

/// Payload of [`Event::StartFile`].
#[derive(Debug, Clone, PartialEq, Eq)]
pub struct StartFileEvent {
    /// Playlist entry id of the file being loaded.
    pub playlist_entry_id: Option<i64>,
}

/// Payload of [`Event::EndFile`].
#[derive(Debug, Clone, PartialEq, Eq)]
pub struct EndFileEvent {
    /// Why playback ended.
    pub reason: Option<Reason>,
    /// Playlist entry id of the file that was played or attempted.
    pub playlist_entry_id: Option<i64>,
    /// The player's error text, where playback failed.
    pub file_error: Option<String>,
    /// Id of the first playlist entry that replaced this one, if any.
    pub playlist_insert_id: Option<i64>,
    /// Number of entries that replaced this one; present with `playlist_insert_id`.
    pub playlist_insert_num_entries: Option<i64>,
}

/// Payload of [`Event::LogMessage`].
#[derive(Debug, Clone, PartialEq, Eq)]
pub struct LogMessageEvent {
    /// The module that sent the message.
    pub prefix: String,
    /// The log level, as text.
    pub level: String,
    /// The message, ending with a newline.
    pub text: String,
}

/// Payload of [`Event::Hook`].
#[derive(Debug, PartialEq)]
pub struct HookEvent {
    /// The id to hand back when the hook is done.
    pub hook_id: Value,
}

/// Events of the player.
#[derive(Debug, PartialEq)]
#[non_exhaustive]
pub enum Event {
    /// Happens after a change of an observed property.
    PropertyChange(PropertyChangeEvent),
    /// Happens right before a new file is loaded.
    StartFile(StartFileEvent),
    /// Happens after a file was unloaded.
    EndFile(EndFileEvent),
    /// A log message that the client asked for.
    LogMessage(LogMessageEvent),
    /// A hook of the player.
    Hook(HookEvent),
    /// Happens after a file was loaded and begins playback.
    FileLoaded,
    /// Happens on seeking, including seeks the player makes by itself.
    Seek,
    /// Start of playback after a seek or after a file was loaded.
    PlaybackRestart,
    /// Sent when the player quits.
    Shutdown,
    /// Happens on video output or filter reconfiguration.
    VideoReconfig,
    /// Happens on audio output or filter reconfiguration.
    AudioReconfig,
    /// Deprecated: observe the property instead.
    TracksChanged,
    /// Deprecated: observe the property instead.
    TrackSwitched,
    /// Deprecated: observe the property instead.
    Pause,
    /// Deprecated: observe the property instead.
    Unpause,
    /// Deprecated: observe the property instead.
    MetadataUpdate,
    /// Deprecated: observe the property instead.
    Idle,
    /// Deprecated: observe the property instead.
    Tick,
    /// Deprecated: observe the property instead.
    ChapterChange,
    /// Carries the whole message.
    GetPropertyReply(Value),
    /// Carries the whole message.
    SetPropertyReply(Value),
    /// Carries the whole message.
    CommandReply(Value),
    /// Carries the whole message.
    ClientMessage(Value),
    /// An event that this library does not know.
    Other,
}

/// The name of event `ev` on the wire; empty for [`Event::Other`].
pub open spec fn event_name(ev: Event) -> Seq<char> {
    match ev {
        Event::PropertyChange(_) => "property-change"@,
        Event::StartFile(_) => "start-file"@,
        Event::EndFile(_) => "end-file"@,
        Event::LogMessage(_) => "log-message"@,
        Event::Hook(_) => "hook"@,
        Event::FileLoaded => "file-loaded"@,
        Event::Seek => "seek"@,
        Event::PlaybackRestart => "playback-restart"@,
        Event::Shutdown => "shutdown"@,
        Event::VideoReconfig => "video-reconfig"@,
        Event::AudioReconfig => "audio-reconfig"@,
        Event::TracksChanged => "tracks-changed"@,
        Event::TrackSwitched => "track-switched"@,
        Event::Pause => "pause"@,
        Event::Unpause => "unpause"@,
        Event::MetadataUpdate => "metadata-update"@,
        Event::Idle => "idle"@,
        Event::Tick => "tick"@,
        Event::ChapterChange => "chapter-change"@,
        Event::GetPropertyReply(_) => "get-property-reply"@,
        Event::SetPropertyReply(_) => "set-property-reply"@,
        Event::CommandReply(_) => "command-reply"@,
        Event::ClientMessage(_) => "client-message"@,
        Event::Other => Seq::empty(),
    }
}

/// Whether `n` is the name of an event that this library knows.
pub open spec fn is_known_event(n: Seq<char>) -> bool {
    ||| n == "property-change"@
    ||| n == "start-file"@
    ||| n == "end-file"@
    ||| n == "log-message"@
    ||| n == "hook"@
    ||| n == "file-loaded"@
    ||| n == "seek"@
    ||| n == "playback-restart"@
    ||| n == "shutdown"@
    ||| n == "video-reconfig"@
    ||| n == "audio-reconfig"@
    ||| n == "tracks-changed"@
    ||| n == "track-switched"@
    ||| n == "pause"@
    ||| n == "unpause"@
    ||| n == "metadata-update"@
    ||| n == "idle"@
    ||| n == "tick"@
    ||| n == "chapter-change"@
    ||| n == "get-property-reply"@
    ||| n == "set-property-reply"@
    ||| n == "command-reply"@
    ||| n == "client-message"@
}

/// Whether `s` is the name of some property.
pub open spec fn is_property_name(s: Seq<char>) -> bool {
    exists|p: Property| property_name(p) == s
}

/// Whether a field may stand where an optional reason is asked for.
pub open spec fn is_optional_reason(f: Option<Json>) -> bool {
    match f {
        None => true,
        Some(Json::Null) => true,
        Some(Json::Str(s)) => exists|r: Reason| reason_name(r) == s,
        _ => false,
    }
}

/// Whether `r` is the reason that an optional-reason field holds.
pub open spec fn reason_matches(f: Option<Json>, r: Option<Reason>) -> bool {
    match f {
        Some(Json::Str(s)) => r matches Some(x) && reason_name(x) == s,
        _ => r is None,
    }
}

/// Whether message `j`, which names event `n`, has the fields that event needs.
pub open spec fn has_event_fields(n: Seq<char>, j: Json) -> bool {
    if n == "property-change"@ {
        field(j, "name"@) matches Some(Json::Str(p)) && is_property_name(p)
    } else if n == "start-file"@ {
        is_optional_int(field(j, "playlist_entry_id"@))
    } else if n == "end-file"@ {
        &&& is_optional_reason(field(j, "reason"@))
        &&& is_optional_int(field(j, "playlist_entry_id"@))
        &&& is_optional_str(field(j, "file_error"@))
        &&& is_optional_int(field(j, "playlist_insert_id"@))
        &&& is_optional_int(field(j, "playlist_insert_num_entries"@))
    } else if n == "log-message"@ {
        &&& field(j, "prefix"@) matches Some(Json::Str(_))
        &&& field(j, "level"@) matches Some(Json::Str(_))
        &&& field(j, "text"@) matches Some(Json::Str(_))
    } else if n == "hook"@ {
        field(j, "hook_id"@) is Some
    } else {
        true
    }
}

/// Whether `j` is a well-formed event message: an object whose `event` is
/// a string, with the fields that a known event needs.
pub open spec fn is_event(j: Json) -> bool {
    &&& j is Object
    &&& field(j, "event"@) matches Some(Json::Str(n)) && has_event_fields(n, j)
}

/// Whether `ev` is the event that message `j` stands for.
pub open spec fn event_matches(j: Json, ev: Event) -> bool {
    field(j, "event"@) matches Some(Json::Str(n)) && match ev {
        Event::Other => !is_known_event(n),
        Event::PropertyChange(p) => {
            &&& n == event_name(ev)
            &&& field(j, "name"@) == Some(Json::Str(property_name(p.name)))
            &&& p.data@ == match field(j, "data"@) {
                Some(d) => d,
                None => Json::Null,
            }
        },
        Event::StartFile(s) => {
            &&& n == event_name(ev)
            &&& s.playlist_entry_id == optional_int(field(j, "playlist_entry_id"@))
        },
        Event::EndFile(e) => {
            &&& n == event_name(ev)
            &&& reason_matches(field(j, "reason"@), e.reason)
            &&& e.playlist_entry_id == optional_int(field(j, "playlist_entry_id"@))
            &&& text_of(e.file_error) == optional_str(field(j, "file_error"@))
            &&& e.playlist_insert_id == optional_int(field(j, "playlist_insert_id"@))
            &&& e.playlist_insert_num_entries == optional_int(
                field(j, "playlist_insert_num_entries"@),
            )
        },
        Event::LogMessage(m) => {
            &&& n == event_name(ev)
            &&& field(j, "prefix"@) == Some(Json::Str(m.prefix@))
            &&& field(j, "level"@) == Some(Json::Str(m.level@))
            &&& field(j, "text"@) == Some(Json::Str(m.text@))
        },
        Event::Hook(h) => n == event_name(ev) && field(j, "hook_id"@) == Some(h.hook_id@),
        Event::GetPropertyReply(v) => n == event_name(ev) && v@ == j,
        Event::SetPropertyReply(v) => n == event_name(ev) && v@ == j,
        Event::CommandReply(v) => n == event_name(ev) && v@ == j,
        Event::ClientMessage(v) => n == event_name(ev) && v@ == j,
        _ => n == event_name(ev),
    }
}

/// Reads a required string field.
fn read_str(v: &Value, key: &str, what: &'static str) -> (r: Result<String, Error>)
    ensures
        match r {
            Ok(s) => field(v@, key@) == Some(Json::Str(s@)),
            Err(e) => !(field(v@, key@) matches Some(Json::Str(_))) && e == Error::Malformed(what),
        },
{
    match v.get(key) {
        Some(Value::String(s)) => Ok(s.clone()),
        _ => Err(Error::Malformed(what)),
    }
}

/// Reads the optional `reason` of an end-file event.
fn read_reason(v: &Value) -> (r: Result<Option<Reason>, Error>)
    ensures
        match r {
            Ok(x) => is_optional_reason(field(v@, "reason"@)) && reason_matches(
                field(v@, "reason"@),
                x,
            ),
            Err(e) => !is_optional_reason(field(v@, "reason"@)) && e is Malformed,
        },
{
    match v.get("reason") {
        None => Ok(None),
        Some(Value::Null) => Ok(None),
        Some(Value::String(s)) => match Reason::from_name(s.as_str()) {
            Some(reason) => Ok(Some(reason)),
            None => Err(Error::Malformed("unknown end-file reason")),
        },
        Some(_) => Err(Error::Malformed("the reason of an end-file event must be a string")),
    }
}

impl Event {
    /// Reads the event out of an inbound message.
    pub fn from_value(v: &Value) -> (r: Result<Event, Error>)
        ensures
            match r {
                Ok(ev) => is_event(v@) && event_matches(v@, ev),
                Err(e) => !is_event(v@) && e is Malformed,
            },
    {
        match v {
            Value::Object(_) => {},
            _ => {
                return Err(Error::Malformed("an event must be a JSON object"));
            },
        }
        let name = match v.get("event") {
            Some(Value::String(s)) => s.as_str(),
            Some(_) => {
                return Err(Error::Malformed("the event name must be a string"));
            },
            None => {
                return Err(Error::Malformed("an event must have an event name"));
            },
        };
        if text_eq(name, "property-change") {
            let property = match v.get("name") {
                Some(Value::String(s)) => match Property::from_name(s.as_str()) {
                    Some(p) => p,
                    None => {
                        return Err(Error::Malformed("unknown property in property-change event"));
                    },
                },
                _ => {
                    return Err(Error::Malformed("a property-change event must name a property"));
                },
            };
            let data = match v.get("data") {
                Some(d) => d.clone(),
                None => Value::Null,
            };
            Ok(Event::PropertyChange(PropertyChangeEvent { name: property, data }))
        } else if text_eq(name, "start-file") {
            let playlist_entry_id = read_optional_int(
                v,
                "playlist_entry_id",
                "playlist_entry_id must be an integer",
            )?;
            Ok(Event::StartFile(StartFileEvent { playlist_entry_id }))
        } else if text_eq(name, "end-file") {
            let reason = read_reason(v)?;
            let playlist_entry_id = read_optional_int(
                v,
                "playlist_entry_id",
                "playlist_entry_id must be an integer",
            )?;
            let file_error = read_optional_str(v, "file_error", "file_error must be a string")?;
            let playlist_insert_id = read_optional_int(
                v,
                "playlist_insert_id",
                "playlist_insert_id must be an integer",
            )?;
            let playlist_insert_num_entries = read_optional_int(
                v,
                "playlist_insert_num_entries",
                "playlist_insert_num_entries must be an integer",
            )?;
            Ok(Event::EndFile(EndFileEvent {
                reason,
                playlist_entry_id,
                file_error,
                playlist_insert_id,
                playlist_insert_num_entries,
            }))
        } else if text_eq(name, "log-message") {
            let prefix = read_str(v, "prefix", "a log-message event must have a prefix")?;
            let level = read_str(v, "level", "a log-message event must have a level")?;
            let text = read_str(v, "text", "a log-message event must have a text")?;
            Ok(Event::LogMessage(LogMessageEvent { prefix, level, text }))
        } else if text_eq(name, "hook") {
            match v.get("hook_id") {
                Some(id) => Ok(Event::Hook(HookEvent { hook_id: id.clone() })),
                None => Err(Error::Malformed("a hook event must have a hook_id")),
            }
        } else if text_eq(name, "get-property-reply") {
            Ok(Event::GetPropertyReply(v.clone()))
        } else if text_eq(name, "set-property-reply") {
            Ok(Event::SetPropertyReply(v.clone()))
        } else if text_eq(name, "command-reply") {
            Ok(Event::CommandReply(v.clone()))
        } else if text_eq(name, "client-message") {
            Ok(Event::ClientMessage(v.clone()))
        } else if text_eq(name, "file-loaded") {
            Ok(Event::FileLoaded)
        } else if text_eq(name, "seek") {
            Ok(Event::Seek)
        } else if text_eq(name, "playback-restart") {
            Ok(Event::PlaybackRestart)
        } else if text_eq(name, "shutdown") {
            Ok(Event::Shutdown)
        } else if text_eq(name, "video-reconfig") {
            Ok(Event::VideoReconfig)
        } else if text_eq(name, "audio-reconfig") {
            Ok(Event::AudioReconfig)
        } else if text_eq(name, "tracks-changed") {
            Ok(Event::TracksChanged)
        } else if text_eq(name, "track-switched") {
            Ok(Event::TrackSwitched)
        } else if text_eq(name, "pause") {
            Ok(Event::Pause)
        } else if text_eq(name, "unpause") {
            Ok(Event::Unpause)
        } else if text_eq(name, "metadata-update") {
            Ok(Event::MetadataUpdate)
        } else if text_eq(name, "idle") {
            Ok(Event::Idle)
        } else if text_eq(name, "tick") {
            Ok(Event::Tick)
        } else if text_eq(name, "chapter-change") {
            Ok(Event::ChapterChange)
        } else {
            Ok(Event::Other)
        }
    }
}

/// The three events that the subscription engine tells apart by name are
/// the only events with those names.
pub proof fn lemma_event_names(ev: Event)
    ensures
        event_name(ev) == "shutdown"@ ==> ev is Shutdown,
        event_name(ev) == "end-file"@ ==> ev is EndFile,
        event_name(ev) == "property-change"@ ==> ev is PropertyChange,
{
    reveal_strlit("shutdown");
    assert("shutdown"@.len() == 8 && "shutdown"@[0] == 's');
    reveal_strlit("end-file");
    assert("end-file"@.len() == 8 && "end-file"@[0] == 'e');
    reveal_strlit("property-change");
    assert("property-change"@.len() == 15 && "property-change"@[0] == 'p');
    match ev {
        Event::PropertyChange(_) => {
            reveal_strlit("property-change");
            assert("property-change"@.len() == 15 && "property-change"@[0] == 'p');
        },
        Event::StartFile(_) => {
            reveal_strlit("start-file");
            assert("start-file"@.len() == 10 && "start-file"@[0] == 's');
        },
        Event::EndFile(_) => {
            reveal_strlit("end-file");
            assert("end-file"@.len() == 8 && "end-file"@[0] == 'e');
        },
        Event::LogMessage(_) => {
            reveal_strlit("log-message");
            assert("log-message"@.len() == 11 && "log-message"@[0] == 'l');
        },
        Event::Hook(_) => {
            reveal_strlit("hook");
            assert("hook"@.len() == 4 && "hook"@[0] == 'h');
        },
        Event::FileLoaded => {
            reveal_strlit("file-loaded");
            assert("file-loaded"@.len() == 11 && "file-loaded"@[0] == 'f');
        },
        Event::Seek => {
            reveal_strlit("seek");
            assert("seek"@.len() == 4 && "seek"@[0] == 's');
        },
        Event::PlaybackRestart => {
            reveal_strlit("playback-restart");
            assert("playback-restart"@.len() == 16 && "playback-restart"@[0] == 'p');
        },
        Event::Shutdown => {
            reveal_strlit("shutdown");
            assert("shutdown"@.len() == 8 && "shutdown"@[0] == 's');
        },
        Event::VideoReconfig => {
            reveal_strlit("video-reconfig");
            assert("video-reconfig"@.len() == 14 && "video-reconfig"@[0] == 'v');
        },
        Event::AudioReconfig => {
            reveal_strlit("audio-reconfig");
            assert("audio-reconfig"@.len() == 14 && "audio-reconfig"@[0] == 'a');
        },
        Event::TracksChanged => {
            reveal_strlit("tracks-changed");
            assert("tracks-changed"@.len() == 14 && "tracks-changed"@[0] == 't');
        },
        Event::TrackSwitched => {
            reveal_strlit("track-switched");
            assert("track-switched"@.len() == 14 && "track-switched"@[0] == 't');
        },
        Event::Pause => {
            reveal_strlit("pause");
            assert("pause"@.len() == 5 && "pause"@[0] == 'p');
        },
        Event::Unpause => {
            reveal_strlit("unpause");
            assert("unpause"@.len() == 7 && "unpause"@[0] == 'u');
        },
        Event::MetadataUpdate => {
            reveal_strlit("metadata-update");
            assert("metadata-update"@.len() == 15 && "metadata-update"@[0] == 'm');
        },
        Event::Idle => {
            reveal_strlit("idle");
            assert("idle"@.len() == 4 && "idle"@[0] == 'i');
        },
        Event::Tick => {
            reveal_strlit("tick");
            assert("tick"@.len() == 4 && "tick"@[0] == 't');
        },
        Event::ChapterChange => {
            reveal_strlit("chapter-change");
            assert("chapter-change"@.len() == 14 && "chapter-change"@[0] == 'c');
        },
        Event::GetPropertyReply(_) => {
            reveal_strlit("get-property-reply");
            assert("get-property-reply"@.len() == 18 && "get-property-reply"@[0] == 'g');
        },
        Event::SetPropertyReply(_) => {
            reveal_strlit("set-property-reply");
            assert("set-property-reply"@.len() == 18 && "set-property-reply"@[0] == 's');
        },
        Event::CommandReply(_) => {
            reveal_strlit("command-reply");
            assert("command-reply"@.len() == 13 && "command-reply"@[0] == 'c');
        },
        Event::ClientMessage(_) => {
            reveal_strlit("client-message");
            assert("client-message"@.len() == 14 && "client-message"@[0] == 'c');
        },
        Event::Other => {},
    }
}

/// Only [`Reason::Quit`] is named `"quit"`.
pub proof fn lemma_reason_names(r: Reason)
    ensures
        reason_name(r) == "quit"@ ==> r is Quit,
{
    reveal_strlit("quit");
    assert("quit"@.len() == 4 && "quit"@[0] == 'q');
    match r {
        Reason::Eof => {
            reveal_strlit("eof");
            assert("eof"@.len() == 3);
        },
        Reason::Stop => {
            reveal_strlit("stop");
            assert("stop"@.len() == 4 && "stop"@[0] == 's');
        },
        Reason::Quit => {},
        Reason::Error => {
            reveal_strlit("error");
            assert("error"@.len() == 5);
        },
        Reason::Redirect => {
            reveal_strlit("redirect");
            assert("redirect"@.len() == 8);
        },
        Reason::Unknown => {
            reveal_strlit("unknown");
            assert("unknown"@.len() == 7);
        },
    }
}

} // verus!
