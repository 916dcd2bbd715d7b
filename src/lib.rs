//! Client side of mpv's line-delimited JSON IPC protocol, written as a
//! protocol engine that does no I/O of its own.
//!
//! The engine decides and its caller moves the bytes. A command is issued
//! as a [`Request`], whose [`Request::to_value`] is written as one line of
//! JSON; every read of the inbound stream is handed back as an [`Inbound`],
//! and the engine says what it means: the reply that was waited for
//! ([`MpvSocket::receive_reply`]), the next change of a subscription
//! ([`EventIter::next`]), or nothing.
//!
//! The connection is closed for good by a shutdown event, by the end of a
//! file with reason quit, or by a read of zero bytes; from then on every
//! command fails with [`Error::SocketClosed`].

mod connect;
mod convert;
mod error;
pub mod event;
mod property;
mod protocol;
mod request_id;
mod socket;
mod value;

pub use crate::connect::{OpenAttempts, ERROR_PIPE_BUSY, MAX_OPEN_ATTEMPTS, OPEN_RETRY_DELAY_MS};
pub use crate::convert::TryFromValue;
pub use crate::error::{Error, Expected, IoFailure, ValueKind};
pub use crate::property::{property_name, Property};
pub use crate::protocol::{
    command_name, command_params, is_command_response, is_event_response, is_optional_int,
    is_optional_str, optional_int, optional_str, request_json, response_data, text_of, Command,
    CommandResponse, EventResponse, Request,
};
pub use crate::request_id::{add_wrapping, next_request_id, RequestId};
pub use crate::socket::{
    is_delivered, is_error_event, is_pipe_closing, is_terminal, issued, law_request_ids,
    law_success_reply_round_trip, law_terminal_event_is_permanent, pulled, received,
    reply_matches, EventIter, Inbound, MpvSocket, Pull, SocketView, ERROR_NO_DATA,
};
pub use crate::value::{
    entry, field, json_of, json_of_entries, json_of_items, kind_of, Json, Value,
};
