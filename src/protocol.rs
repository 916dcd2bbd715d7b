use vstd::prelude::*;

use crate::error::Error;
use crate::event::{event_matches, is_event, Event};
use crate::property::{property_name, Property};
use crate::value::{
    field, json_of_entries, json_of_items, lemma_json_of_entries, lemma_json_of_items, text_eq,
    Json, Value,
};

verus! {

/// A command to the player.
#[derive(Debug, PartialEq)]
pub enum Command {
    ClientName,
    GetTimeUs,
    GetProperty(Property),
    SetProperty(Property, Value),
    /// Registers the observer id for changes of the property.
    ObserveProperty(i64, Property),
    /// Removes the registration of the observer id.
    UnobserveProperty(i64),
    RequestLogMessages,
    GetVersion,
}

/// The name of command `c` on the wire.
pub open spec fn command_name(c: Command) -> Seq<char> {
    match c {
        Command::ClientName => "client_name"@,
        Command::GetTimeUs => "get_time_us"@,
        Command::GetProperty(_) => "get_property"@,
        Command::SetProperty(_, _) => "set_property"@,
        Command::ObserveProperty(_, _) => "observe_property"@,
        Command::UnobserveProperty(_) => "unobserve_property"@,
        Command::RequestLogMessages => "request_log_messages"@,
        Command::GetVersion => "get_version"@,
    }
}

/// The parameters of command `c` on the wire, after its name.
pub open spec fn command_params(c: Command) -> Seq<Json> {
    match c {
        Command::GetProperty(p) => seq![Json::Str(property_name(p))],
        Command::SetProperty(p, v) => seq![Json::Str(property_name(p)), v@],
        Command::ObserveProperty(id, p) => seq![Json::Int(id), Json::Str(property_name(p))],
        Command::UnobserveProperty(id) => seq![Json::Int(id)],
        _ => Seq::empty(),
    }
}

impl Command {
    /// The name of the command on the wire.
    pub fn name(&self) -> (r: &'static str)
        ensures
            r@ == command_name(*self),
    {
        match self {
            Command::ClientName => "client_name",
            Command::GetTimeUs => "get_time_us",
            Command::GetProperty(..) => "get_property",
            Command::SetProperty(..) => "set_property",
            Command::ObserveProperty(..) => "observe_property",
            Command::UnobserveProperty(..) => "unobserve_property",
            Command::RequestLogMessages => "request_log_messages",
            Command::GetVersion => "get_version",
        }
    }

    /// The parameters of the command, in wire order.
    pub fn params(&self) -> (r: Vec<Value>)
        ensures
            json_of_items(r@) == command_params(*self),
    {
        let r = match self {
            Command::GetProperty(property) => vec![property.to_value()],
            Command::SetProperty(property, value) => vec![property.to_value(), value.clone()],
            Command::ObserveProperty(id, property) => vec![Value::Int(*id), property.to_value()],
            Command::UnobserveProperty(id) => vec![Value::Int(*id)],
            _ => Vec::new(),
        };
        proof {
            lemma_json_of_items(r@);
            assert(json_of_items(r@) =~= command_params(*self));
        }
        r
    }
}

/// A command together with the request id it is sent under.
#[derive(Debug, PartialEq)]
pub struct Request {
    pub command: Command,
    pub request_id: i64,
}

/// The message that carries command `c` under request id `id`:
/// `{"command": [name, params...], "request_id": id}`.
pub open spec fn request_json(c: Command, id: i64) -> Json {
    Json::Object(
        seq![
            ("command"@, Json::Array(seq![Json::Str(command_name(c))] + command_params(c))),
            ("request_id"@, Json::Int(id)),
        ],
    )
}

impl Request {
    /// The message that carries this request, ready to be written as one
    /// line of JSON.
    pub fn to_value(&self) -> (r: Value)
        ensures
            r@ == request_json(self.command, self.request_id),
    {
        let mut items: Vec<Value> = Vec::new();
        items.push(Value::String(self.command.name().to_owned()));
        let mut params = self.command.params();
        let ghost param_values = params@;
        items.append(&mut params);
        proof {
            lemma_json_of_items(items@);
            lemma_json_of_items(param_values);
        }
        let ghost want = seq![Json::Str(command_name(self.command))] + command_params(self.command);
        assert(json_of_items(items@) =~= want);
        let entries: Vec<(String, Value)> = vec![
            ("command".to_owned(), Value::Array(items)),
            ("request_id".to_owned(), Value::Int(self.request_id)),
        ];
        proof {
            lemma_json_of_entries(entries@);
            assert(json_of_entries(entries@) =~= seq![
                ("command"@, Json::Array(want)),
                ("request_id"@, Json::Int(self.request_id)),
            ]);
        }
        Value::Object(entries)
    }
}

/// Whether a field may stand where an optional integer is asked for:
/// absent, `null` or an integer.
pub open spec fn is_optional_int(f: Option<Json>) -> bool {
    match f {
        None => true,
        Some(Json::Null) => true,
        Some(Json::Int(_)) => true,
        _ => false,
    }
}

/// The integer that an optional-integer field holds, if any.
pub open spec fn optional_int(f: Option<Json>) -> Option<i64> {
    match f {
        Some(Json::Int(n)) => Some(n),
        _ => None,
    }
}

/// Whether a field may stand where an optional string is asked for:
/// absent, `null` or a string.
pub open spec fn is_optional_str(f: Option<Json>) -> bool {
    match f {
        None => true,
        Some(Json::Null) => true,
        Some(Json::Str(_)) => true,
        _ => false,
    }
}

/// The string that an optional-string field holds, if any.
pub open spec fn optional_str(f: Option<Json>) -> Option<Seq<char>> {
    match f {
        Some(Json::Str(s)) => Some(s),
        _ => None,
    }
}

/// The characters of an optional string.
pub open spec fn text_of(s: Option<String>) -> Option<Seq<char>> {
    match s {
        Some(s) => Some(s@),
        None => None,
    }
}

/// Reads an optional integer field.
pub(crate) fn read_optional_int(v: &Value, key: &str, what: &'static str) -> (r: Result<
    Option<i64>,
    Error,
>)
    ensures
        match r {
            Ok(n) => is_optional_int(field(v@, key@)) && n == optional_int(field(v@, key@)),
            Err(e) => !is_optional_int(field(v@, key@)) && e == Error::Malformed(what),
        },
{
    match v.get(key) {
        None => Ok(None),
        Some(Value::Null) => Ok(None),
        Some(Value::Int(n)) => Ok(Some(*n)),
        Some(_) => Err(Error::Malformed(what)),
    }
}

/// Reads an optional string field.
pub(crate) fn read_optional_str(v: &Value, key: &str, what: &'static str) -> (r: Result<
    Option<String>,
    Error,
>)
    ensures
        match r {
            Ok(s) => is_optional_str(field(v@, key@)) && text_of(s) == optional_str(
                field(v@, key@),
            ),
            Err(e) => !is_optional_str(field(v@, key@)) && e == Error::Malformed(what),
        },
{
    match v.get(key) {
        None => Ok(None),
        Some(Value::Null) => Ok(None),
        Some(Value::String(s)) => Ok(Some(s.clone())),
        Some(_) => Err(Error::Malformed(what)),
    }
}

/// Whether `j` is a well-formed reply to a command: an object whose
/// `request_id` is an optional integer and whose `error` is an optional string.
pub open spec fn is_command_response(j: Json) -> bool {
    &&& j is Object
    &&& is_optional_int(field(j, "request_id"@))
    &&& is_optional_str(field(j, "error"@))
}

/// The data of a reply: its `data` field, or the absent value without one.
pub open spec fn response_data(j: Json) -> Json {
    match field(j, "data"@) {
        Some(d) => d,
        None => Json::Null,
    }
}

/// A reply to a command, as read off the wire.
#[derive(Debug, PartialEq)]
pub struct CommandResponse {
    /// The id of the request answered; events and stray lines have none.
    pub request_id: Option<i64>,
    pub error: Option<String>,
    /// What the command returned; the absent value where the reply has none.
    pub data: Value,
}

impl CommandResponse {
    /// Reads a reply out of an inbound message. Fields other than
    /// `request_id`, `error` and `data` are ignored, so any event decodes
    /// too, as a reply without request id.
    pub fn from_value(v: &Value) -> (r: Result<CommandResponse, Error>)
        ensures
            match r {
                Ok(resp) => {
                    &&& is_command_response(v@)
                    &&& resp.request_id == optional_int(field(v@, "request_id"@))
                    &&& text_of(resp.error) == optional_str(field(v@, "error"@))
                    &&& resp.data@ == response_data(v@)
                },
                Err(e) => !is_command_response(v@) && e is Malformed,
            },
    {
        match v {
            Value::Object(_) => {},
            _ => {
                return Err(Error::Malformed("a reply must be a JSON object"));
            },
        }
        let request_id = read_optional_int(
            v,
            "request_id",
            "the request_id of a reply must be an integer",
        )?;
        let error = read_optional_str(v, "error", "the error of a reply must be a string")?;
        let data = match v.get("data") {
            Some(d) => d.clone(),
            None => Value::Null,
        };
        Ok(CommandResponse { request_id, error, data })
    }

    /// What a reply to the request waited for means: its data where its
    /// error is exactly `"success"`, the error where it is another string,
    /// and an unknown-response error where it has none.
    pub fn into_result(self) -> (r: Result<Value, Error>)
        ensures
            match self.error {
                Some(e) => if e@ == "success"@ {
                    r matches Ok(d) && d@ == self.data@
                } else {
                    r == Err::<Value, Error>(Error::Remote(e))
                },
                None => r == Err::<Value, Error>(Error::UnknownResponse),
            },
    {
        match self.error {
            Some(e) => {
                if text_eq(e.as_str(), "success") {
                    Ok(self.data)
                } else {
                    Err(Error::Remote(e))
                }
            },
            None => Err(Error::UnknownResponse),
        }
    }
}

/// Whether `j` is a well-formed event message: an event, with an `id` that
/// is an optional integer and an `error` that is an optional string.
pub open spec fn is_event_response(j: Json) -> bool {
    &&& is_event(j)
    &&& is_optional_int(field(j, "id"@))
    &&& is_optional_str(field(j, "error"@))
}

/// An event as read off the wire, with the fields every event message may carry.
#[derive(Debug, PartialEq)]
pub struct EventResponse {
    pub event: Event,
    /// The observer id, for property changes.
    pub id: Option<i64>,
    pub error: Option<String>,
}

impl EventResponse {
    /// Reads an event message.
    pub fn from_value(v: &Value) -> (r: Result<EventResponse, Error>)
        ensures
            match r {
                Ok(resp) => {
                    &&& is_event_response(v@)
                    &&& event_matches(v@, resp.event)
                    &&& resp.id == optional_int(field(v@, "id"@))
                    &&& text_of(resp.error) == optional_str(field(v@, "error"@))
                },
                Err(e) => !is_event_response(v@) && e is Malformed,
            },
    {
        let event = Event::from_value(v)?;
        let id = read_optional_int(v, "id", "the id of an event must be an integer")?;
        let error = read_optional_str(v, "error", "the error of an event must be a string")?;
        Ok(EventResponse { event, id, error })
    }
}

} // verus!
