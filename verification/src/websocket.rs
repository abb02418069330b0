//! What a connection does with each thing that arrives on it.
//!
//! The transport reads frames and hands each to `on_event`; it sends what
//! the answer names, and stops reading once the answer says so. A
//! connection that stops is taken off the list of live connections on
//! every way out: a close frame, the end of the stream, or a fault.

use vstd::prelude::*;
use vstd::string::*;
use crate::connection::deregister_connection;
use crate::connection::ConnectionManager;
use crate::connection::SharedConnections;

verus! {

/// What arrives on a connection.
#[derive(Debug, Clone, PartialEq, Eq)]
pub enum Event {
    /// A text frame.
    Text(String),
    /// A binary frame.
    Binary(Vec<u8>),
    /// A ping with its payload.
    Ping(Vec<u8>),
    /// A close frame.
    Close,
    /// A frame of any other kind.
    Other,
    /// The stream has ended.
    End,
    /// The transport has failed.
    Fault,
}

/// What is sent in answer.
#[derive(Debug, Clone, PartialEq, Eq)]
pub enum Reply {
    /// A text frame.
    Text(String),
    /// A binary frame.
    Binary(Vec<u8>),
    /// A pong with the payload of the ping.
    Pong(Vec<u8>),
    /// Nothing.
    Nothing,
}

/// The answer to an event: what to send, and whether to stop reading.
#[derive(Debug, Clone, PartialEq, Eq)]
pub struct Step {
    pub reply: Reply,
    pub done: bool,
}

/// What stands before the text that is echoed.
pub open spec fn echo_prefix() -> Seq<char> {
    "Echo: "@
}

/// Whether an event ends the connection.
pub open spec fn ends(event: Event) -> bool {
    event is Close || event is End || event is Fault
}

/// Whether a step answers an event: text is echoed behind the prefix,
/// bytes are echoed as they came, a ping gets a pong with its payload, and
/// nothing else gets an answer; reading stops exactly on an event that ends
/// the connection.
pub open spec fn answers(step: Step, event: Event) -> bool {
    &&& step.done == ends(event)
    &&& match event {
        Event::Text(text) => step.reply matches Reply::Text(out) && out@ == echo_prefix() + text@,
        Event::Binary(bytes) => step.reply matches Reply::Binary(out) && out@ == bytes@,
        Event::Ping(bytes) => step.reply matches Reply::Pong(out) && out@ == bytes@,
        _ => step.reply is Nothing,
    }
}

/// The answer to an event.
pub fn on_event(event: Event) -> (r: Step)
    ensures
        answers(r, event),
{
    match event {
        Event::Text(text) => {
            let mut out = String::from_str("Echo: ");
            out.append(text.as_str());
            Step { reply: Reply::Text(out), done: false }
        },
        Event::Binary(bytes) => Step { reply: Reply::Binary(bytes), done: false },
        Event::Ping(bytes) => Step { reply: Reply::Pong(bytes), done: false },
        Event::Close => Step { reply: Reply::Nothing, done: true },
        Event::Other => Step { reply: Reply::Nothing, done: false },
        Event::End => Step { reply: Reply::Nothing, done: true },
        Event::Fault => Step { reply: Reply::Nothing, done: true },
    }
}

/// Answers an event on a live connection and, where the event ends the
/// connection, takes the connection off the list. The list is left alone
/// by every other event.
pub fn handle_event(manager: &mut ConnectionManager, conn_id: u128, event: Event) -> (r: Step)
    requires
        old(manager).wf(),
    ensures
        final(manager).wf(),
        answers(r, event),
        ends(event) ==> final(manager)@ == old(manager)@.remove(conn_id),
        !ends(event) ==> final(manager)@ == old(manager)@,
{
    let step = on_event(event);
    if step.done {
        deregister_connection(manager, conn_id);
    }
    step
}

/// Answers an event on a live connection of a shared directory and, where
/// the event ends the connection, takes the connection off the list.
pub fn handle_shared_event(connections: &SharedConnections, conn_id: u128, event: Event) -> (r: Step)
    ensures
        answers(r, event),
{
    let step = on_event(event);
    if step.done {
        let _ = connections.remove_connection(&conn_id);
    }
    step
}

} // verus!
