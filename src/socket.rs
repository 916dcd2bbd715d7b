use vstd::prelude::*;

use crate::error::{Error, IoFailure};
use crate::event::{
    event_matches, lemma_event_names, lemma_reason_names, Event, PropertyChangeEvent, Reason,
};
use crate::property::Property;
use crate::protocol::{
    is_command_response, is_event_response, optional_int, optional_str, request_json,
    response_data, Command, CommandResponse, EventResponse, Request,
};
use crate::request_id::{next_request_id, RequestId};
use crate::value::{entry, field, text_eq, Json, Value};

verus! {

/// What one read of the inbound stream gave.
#[derive(Debug, PartialEq)]
pub enum Inbound {
    /// A read of zero bytes: the remote side closed the channel.
    Closed,
    /// The read failed, or the line read was not JSON text.
    Failed(Error),
    /// One line, as the JSON value it holds.
    Line(Value),
}

/// The protocol state of one connection, as its contracts see it.
pub struct SocketView {
    /// The id of the last request issued; 0 before the first.
    pub last_request_id: i64,
    /// Whether the connection is closed for good.
    pub closed: bool,
}

/// The protocol state of one connection to the player: the request id
/// counter and whether the connection is closed.
///
/// It owns no channel. Its caller writes each [`Request`] it is handed and
/// passes back what each read of the inbound stream gave.
#[derive(Debug)]
pub struct MpvSocket {
    last_request_id: RequestId,
    closed: bool,
}

impl View for MpvSocket {
    type V = SocketView;

    closed spec fn view(&self) -> SocketView {
        SocketView { last_request_id: self.last_request_id@, closed: self.closed }
    }
}

/// Whether `r` is what the reply line `j` means to a caller waiting for the
/// reply to request `id`: `None` where the line answers something else.
pub open spec fn reply_matches(j: Json, id: i64, r: Option<Result<Value, Error>>) -> bool {
    if !is_command_response(j) {
        r matches Some(Err(e)) && e is Malformed
    } else if optional_int(field(j, "request_id"@)) != Some(id) {
        r is None
    } else {
        match optional_str(field(j, "error"@)) {
            Some(e) => if e == "success"@ {
                r matches Some(Ok(d)) && d@ == response_data(j)
            } else {
                r matches Some(Err(Error::Remote(m))) && m@ == e
            },
            None => r == Some(Err::<Value, Error>(Error::UnknownResponse)),
        }
    }
}

/// Whether issuing `command` took the state from `before` to `after` and
/// gave `r`: on a closed connection nothing is issued and the result is
/// [`Error::SocketClosed`]; otherwise the command goes out under the request id
/// that follows the last one.
pub open spec fn issued(
    before: SocketView,
    after: SocketView,
    command: Command,
    r: Result<Request, Error>,
) -> bool {
    if before.closed {
        r == Err::<Request, Error>(Error::SocketClosed) && after == before
    } else {
        &&& r == Ok::<Request, Error>(
            Request { command, request_id: next_request_id(before.last_request_id) },
        )
        &&& after == (SocketView {
            last_request_id: next_request_id(before.last_request_id),
            closed: false,
        })
    }
}

/// Whether a caller waiting for the reply to request `id` that read
/// `inbound` took the state from `before` to `after` and got `r`: a read of
/// zero bytes closes the connection, a failed read is its error, and a line
/// means what [`reply_matches`] says.
pub open spec fn received(
    before: SocketView,
    id: i64,
    inbound: Inbound,
    after: SocketView,
    r: Option<Result<Value, Error>>,
) -> bool {
    match inbound {
        Inbound::Closed => {
            &&& r == Some(Err::<Value, Error>(Error::SocketClosed))
            &&& after == (SocketView { last_request_id: before.last_request_id, closed: true })
        },
        Inbound::Failed(e) => r == Some(Err::<Value, Error>(e)) && after == before,
        Inbound::Line(v) => reply_matches(v@, id, r) && after == before,
    }
}

impl MpvSocket {
    /// A fresh connection state: open, no request issued yet.
    pub fn new() -> (r: MpvSocket)
        ensures
            r@ == (SocketView { last_request_id: 0, closed: false }),
    {
        MpvSocket { last_request_id: RequestId::new(), closed: false }
    }

    /// Whether the connection is closed for good.
    pub fn is_closed(&self) -> (r: bool)
        ensures
            r == self@.closed,
    {
        self.closed
    }

    /// Issues `command` under the next request id; fails with
    /// [`Error::SocketClosed`], and issues nothing, once the connection is closed.
    pub fn send_command(&mut self, command: Command) -> (r: Result<Request, Error>)
        ensures
            issued(old(self)@, final(self)@, command, r),
    {
        if self.closed {
            return Err(Error::SocketClosed);
        }
        let request_id = self.last_request_id.next();
        Ok(Request { command, request_id })
    }

    /// What an inbound read means to a caller waiting for the reply to
    /// request `request_id`: `None` where it is some other line, to be
    /// skipped; the reply's outcome where it answers the request. A read of
    /// zero bytes closes the connection.
    pub fn receive_reply(&mut self, request_id: i64, inbound: Inbound) -> (r: Option<
        Result<Value, Error>,
    >)
        ensures
            received(old(self)@, request_id, inbound, final(self)@, r),
    {
        match inbound {
            Inbound::Closed => {
                self.closed = true;
                Some(Err(Error::SocketClosed))
            },
            Inbound::Failed(e) => Some(Err(e)),
            Inbound::Line(v) => match CommandResponse::from_value(&v) {
                Err(e) => Some(Err(e)),
                Ok(response) => {
                    if response.request_id == Some(request_id) {
                        Some(response.into_result())
                    } else {
                        None
                    }
                },
            },
        }
    }
}

impl MpvSocket {
    /// Asks for the client's name, `"ipc-N"`; its reply converts to a `String`.
    pub fn client_name(&mut self) -> (r: Result<Request, Error>)
        ensures
            issued(old(self)@, final(self)@, Command::ClientName, r),
    {
        self.send_command(Command::ClientName)
    }

    /// Asks for the player's internal time in microseconds; its reply
    /// converts to an `i64`.
    pub fn get_time_us(&mut self) -> (r: Result<Request, Error>)
        ensures
            issued(old(self)@, final(self)@, Command::GetTimeUs, r),
    {
        self.send_command(Command::GetTimeUs)
    }

    /// Asks for the value of `property`.
    pub fn get_property(&mut self, property: Property) -> (r: Result<Request, Error>)
        ensures
            issued(old(self)@, final(self)@, Command::GetProperty(property), r),
    {
        self.send_command(Command::GetProperty(property))
    }

    /// Sets `property` to `value`; a successful reply carries the absent value.
    pub fn set_property(&mut self, property: Property, value: Value) -> (r: Result<
        Request,
        Error,
    >)
        ensures
            issued(old(self)@, final(self)@, Command::SetProperty(property, value), r),
    {
        self.send_command(Command::SetProperty(property, value))
    }

    /// Registers observer id 1 for changes of `property`; once the reply
    /// succeeds, [`EventIter::new`]`(1)` delivers the changes.
    pub fn observe_property(&mut self, property: Property) -> (r: Result<Request, Error>)
        ensures
            issued(old(self)@, final(self)@, Command::ObserveProperty(1, property), r),
    {
        self.send_command(Command::ObserveProperty(1, property))
    }

    /// The commands that register the observers of `properties`, to be sent
    /// in order, each once the reply to the one before has succeeded: the
    /// i-th property gets observer id i, counting from 1. Once all have
    /// succeeded, [`EventIter::new`] with their number delivers the changes.
    pub fn observe_properties(properties: &[Property]) -> (r: Vec<Command>)
        requires
            properties@.len() < i64::MAX,
        ensures
            r@.len() == properties@.len(),
            forall|i: int|
                0 <= i < r@.len() ==> #[trigger] r@[i] == Command::ObserveProperty(
                    (i + 1) as i64,
                    properties@[i],
                ),
    {
        let mut commands: Vec<Command> = Vec::new();
        let mut i: usize = 0;
        while i < properties.len()
            invariant
                i <= properties@.len(),
                properties@.len() < i64::MAX,
                commands@.len() == i,
                forall|j: int|
                    0 <= j < i ==> #[trigger] commands@[j] == Command::ObserveProperty(
                        (j + 1) as i64,
                        properties@[j],
                    ),
            decreases properties@.len() - i,
        {
            commands.push(Command::ObserveProperty((i + 1) as i64, properties[i]));
            i += 1;
        }
        commands
    }

    /// Asks for the client API version of the player; its reply converts to an `i64`.
    pub fn get_version(&mut self) -> (r: Result<Request, Error>)
        ensures
            issued(old(self)@, final(self)@, Command::GetVersion, r),
    {
        self.send_command(Command::GetVersion)
    }
}

/// Windows error code of an unobserve that met a pipe being closed by the
/// player: the expected end of a teardown racing the player's shutdown.
pub const ERROR_NO_DATA: i32 = 232;

/// Whether `e` is the failure of an unobserve that met the pipe being closed.
pub open spec fn is_pipe_closing(e: Error) -> bool {
    e matches Error::Io(f) && f.raw_os_error == Some(ERROR_NO_DATA)
}

/// Whether `j` is a terminal event: a shutdown, or the end of a file whose
/// reason is that the player quit.
pub open spec fn is_terminal(j: Json) -> bool {
    ||| field(j, "event"@) == Some(Json::Str("shutdown"@))
    ||| field(j, "event"@) == Some(Json::Str("end-file"@)) && field(j, "reason"@) == Some(
        Json::Str("quit"@),
    )
}

/// Whether event message `j` reports an error: an `error` other than `"success"`.
pub open spec fn is_error_event(j: Json) -> bool {
    optional_str(field(j, "error"@)) matches Some(e) && e != "success"@
}

/// Whether event message `j` is a change that a subscription with observer
/// ids `1..=n` delivers: a property change for one of those ids that carries
/// a value other than the absent one.
pub open spec fn is_delivered(j: Json, n: i64) -> bool {
    &&& field(j, "event"@) == Some(Json::Str("property-change"@))
    &&& optional_int(field(j, "id"@)) matches Some(k) && 1 <= k <= n
    &&& field(j, "data"@) matches Some(d) && d != Json::Null
}

/// What one pull of a subscription gives.
#[derive(Debug, PartialEq)]
pub enum Pull {
    /// The sequence has ended: it gives no more items.
    End,
    /// The line read carried nothing for this subscription; pull again.
    Skip,
    /// The next item of the sequence.
    Item(Result<PropertyChangeEvent, Error>),
}

/// Whether a pull by a subscription with observer ids `1..=n` that read
/// `inbound` took the state from `before` to `after` and gave `out`.
///
/// On a closed connection the sequence has ended and nothing is read. A read
/// of zero bytes ends it and closes the connection. A failed read or a
/// malformed message is an error item. A terminal event closes the
/// connection; an event with an error other than `"success"` is an error
/// item; a delivered change is the next item; anything else is skipped.
pub open spec fn pulled(
    before: SocketView,
    n: i64,
    inbound: Inbound,
    after: SocketView,
    out: Pull,
) -> bool {
    if before.closed {
        out == Pull::End && after == before
    } else {
        match inbound {
            Inbound::Closed => out == Pull::End && after == (SocketView {
                last_request_id: before.last_request_id,
                closed: true,
            }),
            Inbound::Failed(e) => out == Pull::Item(Err(e)) && after == before,
            Inbound::Line(v) => if !is_event_response(v@) {
                out matches Pull::Item(Err(e)) && e is Malformed && after == before
            } else {
                &&& after == (SocketView {
                    last_request_id: before.last_request_id,
                    closed: is_terminal(v@),
                })
                &&& if is_error_event(v@) {
                    out matches Pull::Item(Err(Error::Remote(m))) && Some(m@) == optional_str(
                        field(v@, "error"@),
                    )
                } else if is_delivered(v@, n) {
                    out matches Pull::Item(Ok(change)) && event_matches(
                        v@,
                        Event::PropertyChange(change),
                    )
                } else {
                    out == Pull::Skip
                }
            },
        }
    }
}

/// A subscription to property changes: a lazy, single-pass sequence read
/// off the connection's inbound stream, for the observer ids `1..=n`.
///
/// Its caller pulls with [`EventIter::next`] until it gives
/// [`Pull::End`] or the caller stops, and then tears the subscription down
/// with [`EventIter::unobserve_commands`].
#[derive(Debug)]
pub struct EventIter {
    num_observed_properties: i64,
}

impl EventIter {
    #[verifier::type_invariant]
    spec fn wf(self) -> bool {
        self.num_observed_properties >= 0
    }
}

impl View for EventIter {
    type V = i64;

    /// The number of observer ids registered.
    closed spec fn view(&self) -> i64 {
        self.num_observed_properties
    }
}

impl EventIter {
    /// The subscription over observer ids `1..=num_observed_properties`.
    pub fn new(num_observed_properties: i64) -> (r: EventIter)
        requires
            num_observed_properties >= 0,
        ensures
            r@ == num_observed_properties,
    {
        EventIter { num_observed_properties }
    }

    /// The number of observer ids registered.
    pub fn num_observed_properties(&self) -> (r: i64)
        ensures
            r == self@,
            r >= 0,
    {
        proof {
            use_type_invariant(self);
        }
        self.num_observed_properties
    }

    /// Whether the sequence has ended for good, so that no read is needed:
    /// the connection is closed.
    pub fn is_finished(&self, mpv: &MpvSocket) -> (r: bool)
        ensures
            r == mpv@.closed,
    {
        mpv.closed
    }

    /// One pull: what the line that was read means to this subscription.
    pub fn next(&self, mpv: &mut MpvSocket, inbound: Inbound) -> (r: Pull)
        ensures
            pulled(old(mpv)@, self@, inbound, final(mpv)@, r),
    {
        if mpv.closed {
            return Pull::End;
        }
        let v = match inbound {
            Inbound::Closed => {
                mpv.closed = true;
                return Pull::End;
            },
            Inbound::Failed(e) => {
                return Pull::Item(Err(e));
            },
            Inbound::Line(v) => v,
        };
        let response = match EventResponse::from_value(&v) {
            Ok(response) => response,
            Err(e) => {
                return Pull::Item(Err(e));
            },
        };
        proof {
            lemma_event_names(response.event);
        }
        match &response.event {
            Event::Shutdown => {
                mpv.closed = true;
            },
            Event::EndFile(end) => {
                proof {
                    if end.reason is Some {
                        lemma_reason_names(end.reason->0);
                    }
                }
                match end.reason {
                    Some(Reason::Quit) => {
                        mpv.closed = true;
                    },
                    _ => {},
                }
            },
            _ => {},
        }
        if let Some(e) = response.error {
            if !text_eq(e.as_str(), "success") {
                return Pull::Item(Err(Error::Remote(e)));
            }
        }
        match response.event {
            Event::PropertyChange(change) => match response.id {
                Some(k) => {
                    if 1 <= k && k <= self.num_observed_properties && !change.data.is_null() {
                        Pull::Item(Ok(change))
                    } else {
                        Pull::Skip
                    }
                },
                None => Pull::Skip,
            },
            _ => Pull::Skip,
        }
    }

    /// The commands that tear the subscription down, in the order to send
    /// them: one unobserve per observer id, in ascending order, or none once
    /// the connection is closed. The teardown stops at the first command that
    /// fails.
    pub fn unobserve_commands(&self, mpv: &MpvSocket) -> (r: Vec<Command>)
        ensures
            mpv@.closed ==> r@.len() == 0,
            !mpv@.closed ==> r@.len() == self@,
            forall|i: int|
                0 <= i < r@.len() ==> #[trigger] r@[i] == Command::UnobserveProperty((i + 1) as i64),
    {
        proof {
            use_type_invariant(self);
        }
        let mut commands: Vec<Command> = Vec::new();
        if mpv.closed {
            return commands;
        }
        let n = self.num_observed_properties;
        let mut i: i64 = 0;
        while i < n
            invariant
                0 <= i <= n,
                commands@.len() == i,
                forall|j: int|
                    0 <= j < i ==> #[trigger] commands@[j] == Command::UnobserveProperty(
                        (j + 1) as i64,
                    ),
            decreases n - i,
        {
            commands.push(Command::UnobserveProperty(i + 1));
            i += 1;
        }
        commands
    }

    /// What becomes of a failed unobserve: `None` where the player was
    /// already closing the pipe, which is expected and leaves nothing
    /// behind; the error, to be reported and not raised, otherwise.
    pub fn teardown_error(error: Error) -> (r: Option<Error>)
        ensures
            is_pipe_closing(error) ==> r is None,
            !is_pipe_closing(error) ==> r == Some(error),
    {
        match &error {
            Error::Io(failure) => match failure.raw_os_error {
                Some(code) => if code == ERROR_NO_DATA {
                    return None;
                },
                None => {},
            },
            _ => {},
        }
        Some(error)
    }
}

/// Request ids on the wire: every command issued goes out under the id
/// that follows the last one issued, one more, or `i64::MIN` after
/// `i64::MAX`; its message carries that id; and nothing received in between,
/// reply or event, moves the counter.
pub proof fn law_request_ids(
    before: SocketView,
    after: SocketView,
    command: Command,
    r: Result<Request, Error>,
)
    requires
        issued(before, after, command, r),
        !before.closed,
    ensures
        r is Ok,
        r->Ok_0.request_id as int == if before.last_request_id == i64::MAX {
            i64::MIN as int
        } else {
            before.last_request_id + 1
        },
        after.last_request_id == r->Ok_0.request_id,
        field(request_json(r->Ok_0.command, r->Ok_0.request_id), "request_id"@) == Some(
            Json::Int(r->Ok_0.request_id),
        ),
        forall|id: i64, inbound: Inbound, s: SocketView, out: Option<Result<Value, Error>>|
            #[trigger] received(after, id, inbound, s, out) ==> s.last_request_id
                == after.last_request_id,
        forall|n: i64, inbound: Inbound, s: SocketView, out: Pull|
            #[trigger] pulled(after, n, inbound, s, out) ==> s.last_request_id
                == after.last_request_id,
{
    reveal_strlit("command");
    reveal_strlit("request_id");
    assert("command"@.len() == 7 && "request_id"@.len() == 10);
    let entries = request_json(r->Ok_0.command, r->Ok_0.request_id)->Object_0;
    let rest = entries.subrange(1, entries.len() as int);
    assert(rest[0] == entries[1]);
    assert(entry(rest, "request_id"@) == Some(Json::Int(r->Ok_0.request_id)));
}

/// A terminal event closes the connection for good: the pull that sees it
/// delivers no change, every command issued afterwards fails with
/// [`Error::SocketClosed`] and issues nothing, every later pull ends the
/// sequence, and no read reopens the connection.
pub proof fn law_terminal_event_is_permanent(
    before: SocketView,
    n: i64,
    line: Value,
    after: SocketView,
    out: Pull,
)
    requires
        pulled(before, n, Inbound::Line(line), after, out),
        is_event_response(line@),
        is_terminal(line@),
    ensures
        after.closed,
        !(out matches Pull::Item(Ok(_))),
        forall|command: Command, s: SocketView, r: Result<Request, Error>|
            #[trigger] issued(after, s, command, r) ==> r == Err::<Request, Error>(
                Error::SocketClosed,
            ) && s == after,
        forall|m: i64, inbound: Inbound, s: SocketView, o: Pull|
            #[trigger] pulled(after, m, inbound, s, o) ==> o == Pull::End && s == after,
        forall|id: i64, inbound: Inbound, s: SocketView, o: Option<Result<Value, Error>>|
            #[trigger] received(after, id, inbound, s, o) ==> s.closed,
{
    reveal_strlit("shutdown");
    reveal_strlit("end-file");
    reveal_strlit("property-change");
    assert("shutdown"@.len() == 8 && "end-file"@.len() == 8 && "property-change"@.len() == 15);
}

/// Round trip: a command issued under some id and answered by the line
/// `{"request_id": id, "error": "success"}` gives the absent value.
pub proof fn law_success_reply_round_trip(
    before: SocketView,
    after: SocketView,
    command: Command,
    r: Result<Request, Error>,
    reply: Value,
    s: SocketView,
    outcome: Option<Result<Value, Error>>,
)
    requires
        issued(before, after, command, r),
        r is Ok,
        reply@ == Json::Object(
            seq![
                ("request_id"@, Json::Int(r->Ok_0.request_id)),
                ("error"@, Json::Str("success"@)),
            ],
        ),
        received(after, r->Ok_0.request_id, Inbound::Line(reply), s, outcome),
    ensures
        outcome matches Some(Ok(d)) && d@ == Json::Null,
        s == after,
{
    reveal_strlit("request_id");
    reveal_strlit("error");
    reveal_strlit("data");
    assert("request_id"@.len() == 10 && "error"@.len() == 5 && "data"@.len() == 4);
    let entries = reply@->Object_0;
    let rest = entries.subrange(1, entries.len() as int);
    let none = rest.subrange(1, rest.len() as int);
    assert(rest[0] == entries[1]);
    assert(none.len() == 0);
    assert(entry(none, "data"@) is None);
    assert(entry(rest, "data"@) is None);
    assert(entry(rest, "error"@) == Some(Json::Str("success"@)));
}

} // verus!
