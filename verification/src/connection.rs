//! One connection, from accept to close: which action follows which event.
//! The caller performs each action on the sockets and reports what happened.

use vstd::prelude::*;
use vstd::string::*;
use crate::handler::{
    HandlerError, Plan, ERROR_MSG_HTTP_403_FORBIDDEN, SUCCESS_MSG_HTTP_200_OK,
};

verus! {

/// Where a connection stands.
#[derive(Clone, Copy, Debug, PartialEq, Eq, Structural)]
pub enum State {
    /// Accepted; nothing was read yet.
    Accepted,
    /// The request is being drained and handled.
    ReadRequest,
    /// The answer for a blocked host is being written.
    WriteForbidden,
    /// The connection to the origin is being opened.
    ConnectToOrigin,
    /// What the client sent after `CONNECT` is being drained and dropped.
    DiscardClientPreamble,
    /// The greeting of the tunnel is being written.
    WriteEstablished,
    /// Bytes are copied both ways.
    Tunnel,
    /// The request is being sent on to the origin.
    ForwardRequest,
    /// The origin's answer is being written.
    WriteResponse,
    /// Done: the request was answered or the tunnel has ended.
    Closed,
    /// Given up: nothing more is written.
    Aborted,
}

/// What happened to the action that was asked for.
#[derive(Debug)]
pub enum Event {
    /// The connection was accepted.
    Started,
    /// The request was drained and handled, with this outcome.
    Handled(Result<Plan, HandlerError>),
    /// The origin answered the forwarded request with this body.
    Fetched(String),
    /// The action was carried out.
    Done,
    /// The action failed.
    Failed,
}

/// What the caller is to do next.
#[derive(Debug)]
pub enum Action {
    /// Drain the client and handle the request; report `Handled`.
    ReadRequest,
    /// Write `text` to the client.
    Write { text: String },
    /// Open a TCP connection to `address`.
    Connect { address: String },
    /// Drain the client and drop what came.
    Drain,
    /// Copy bytes between client and origin, both ways, until one side ends.
    Copy,
    /// Get `url` and report the body as `Fetched`.
    Fetch { url: String },
    /// Close the client socket; the connection is over.
    Close,
}

/// An action as plain text.
pub ghost enum ActionView {
    ReadRequest,
    Write { text: Seq<char> },
    Connect { address: Seq<char> },
    Drain,
    Copy,
    Fetch { url: Seq<char> },
    Close,
}

impl View for Action {
    type V = ActionView;

    open spec fn view(&self) -> ActionView {
        match *self {
            Action::ReadRequest => ActionView::ReadRequest,
            Action::Write { text } => ActionView::Write { text: text@ },
            Action::Connect { address } => ActionView::Connect { address: address@ },
            Action::Drain => ActionView::Drain,
            Action::Copy => ActionView::Copy,
            Action::Fetch { url } => ActionView::Fetch { url: url@ },
            Action::Close => ActionView::Close,
        }
    }
}

/// A connection in `state` is over.
pub open spec fn is_terminal(state: State) -> bool {
    state == State::Closed || state == State::Aborted
}

/// The state that follows `state` on `event`. Whatever fails before the
/// tunnel stands, and whatever comes out of turn, gives the connection up;
/// a tunnel that ends, in whatever way, closes it.
pub open spec fn next_state(state: State, event: Event) -> State {
    match (state, event) {
        (State::Accepted, Event::Started) => State::ReadRequest,
        (State::ReadRequest, Event::Handled(Ok(Plan::Forbid))) => State::WriteForbidden,
        (State::ReadRequest, Event::Handled(Ok(Plan::Tunnel { .. }))) => State::ConnectToOrigin,
        (State::ReadRequest, Event::Handled(Ok(Plan::Forward { .. }))) => State::ForwardRequest,
        (State::WriteForbidden, Event::Done) => State::Closed,
        (State::ConnectToOrigin, Event::Done) => State::DiscardClientPreamble,
        (State::DiscardClientPreamble, Event::Done) => State::WriteEstablished,
        (State::WriteEstablished, Event::Done) => State::Tunnel,
        (State::Tunnel, Event::Done) => State::Closed,
        (State::Tunnel, Event::Failed) => State::Closed,
        (State::ForwardRequest, Event::Fetched(_)) => State::WriteResponse,
        (State::WriteResponse, Event::Done) => State::Closed,
        (State::Closed, _) => State::Closed,
        _ => State::Aborted,
    }
}

/// The action that the caller performs on entering `state`; `event` is what
/// led there and brings the text, the address or the URL that the action
/// needs.
pub open spec fn action_for(state: State, event: Event) -> ActionView {
    match (state, event) {
        (State::ReadRequest, _) => ActionView::ReadRequest,
        (State::WriteForbidden, _) => ActionView::Write { text: ERROR_MSG_HTTP_403_FORBIDDEN@ },
        (State::ConnectToOrigin, Event::Handled(Ok(Plan::Tunnel { address }))) => {
            ActionView::Connect { address: address@ }
        },
        (State::DiscardClientPreamble, _) => ActionView::Drain,
        (State::WriteEstablished, _) => ActionView::Write { text: SUCCESS_MSG_HTTP_200_OK@ },
        (State::Tunnel, _) => ActionView::Copy,
        (State::ForwardRequest, Event::Handled(Ok(Plan::Forward { url }))) => ActionView::Fetch {
            url: url@,
        },
        (State::WriteResponse, Event::Fetched(body)) => ActionView::Write { text: body@ },
        _ => ActionView::Close,
    }
}

/// How far a connection has come: every step takes it further.
pub open spec fn progress(state: State) -> nat {
    match state {
        State::Accepted => 0,
        State::ReadRequest => 1,
        State::WriteForbidden => 2,
        State::ConnectToOrigin => 2,
        State::ForwardRequest => 2,
        State::DiscardClientPreamble => 3,
        State::WriteResponse => 3,
        State::WriteEstablished => 4,
        State::Tunnel => 5,
        State::Closed => 6,
        State::Aborted => 6,
    }
}

/// Takes the connection from `state` on `event`: the state it is in then and
/// the action to perform there.
pub fn advance(state: State, event: Event) -> (step: (State, Action))
    ensures
        step.0 == next_state(state, event),
        step.1@ == action_for(next_state(state, event), event),
{
    match (state, event) {
        (State::Accepted, Event::Started) => (State::ReadRequest, Action::ReadRequest),
        (State::ReadRequest, Event::Handled(Ok(Plan::Forbid))) => (
            State::WriteForbidden,
            Action::Write { text: String::from_str(ERROR_MSG_HTTP_403_FORBIDDEN) },
        ),
        (State::ReadRequest, Event::Handled(Ok(Plan::Tunnel { address }))) => (
            State::ConnectToOrigin,
            Action::Connect { address },
        ),
        (State::ReadRequest, Event::Handled(Ok(Plan::Forward { url }))) => (
            State::ForwardRequest,
            Action::Fetch { url },
        ),
        (State::WriteForbidden, Event::Done) => (State::Closed, Action::Close),
        (State::ConnectToOrigin, Event::Done) => (State::DiscardClientPreamble, Action::Drain),
        (State::DiscardClientPreamble, Event::Done) => (
            State::WriteEstablished,
            Action::Write { text: String::from_str(SUCCESS_MSG_HTTP_200_OK) },
        ),
        (State::WriteEstablished, Event::Done) => (State::Tunnel, Action::Copy),
        (State::Tunnel, Event::Done) => (State::Closed, Action::Close),
        (State::Tunnel, Event::Failed) => (State::Closed, Action::Close),
        (State::ForwardRequest, Event::Fetched(body)) => (
            State::WriteResponse,
            Action::Write { text: body },
        ),
        (State::WriteResponse, Event::Done) => (State::Closed, Action::Close),
        (State::Closed, _) => (State::Closed, Action::Close),
        _ => (State::Aborted, Action::Close),
    }
}

/// Every step of a connection that is not over takes it further, so that it
/// is over after six steps at most; and one that is over stays so, with
/// nothing left to do but to close.
pub proof fn lemma_connection_ends(state: State, event: Event)
    ensures
        !is_terminal(state) ==> progress(next_state(state, event)) > progress(state),
        progress(state) <= 6,
        progress(state) == 6 <==> is_terminal(state),
        is_terminal(state) ==> next_state(state, event) == state && action_for(
            next_state(state, event),
            event,
        ) == ActionView::Close,
{
}

/// A connection is closed only after the one thing it was there for: the
/// refusal was written, the tunnel has run, or the origin's answer was
/// written. Every other way out gives it up.
pub proof fn lemma_closed_after_one_outcome(state: State, event: Event)
    requires
        state != State::Closed,
        next_state(state, event) == State::Closed,
    ensures
        state == State::WriteForbidden || state == State::Tunnel || state
            == State::WriteResponse,
{
}

/// A refused request leads to the fixed answer and to nothing else: the
/// refusal is written, and what follows it, done or failed, ends the
/// connection with no connect and no fetch.
pub proof fn lemma_refusal_writes_the_fixed_answer(after_write: Event)
    ensures
        next_state(State::ReadRequest, Event::Handled(Ok(Plan::Forbid))) == State::WriteForbidden,
        action_for(State::WriteForbidden, Event::Handled(Ok(Plan::Forbid))) == (ActionView::Write {
            text: ERROR_MSG_HTTP_403_FORBIDDEN@,
        }),
        is_terminal(next_state(State::WriteForbidden, after_write)),
        action_for(next_state(State::WriteForbidden, after_write), after_write)
            == ActionView::Close,
{
}

/// A tunnel is opened in this order: connect to the planned address, drain
/// the client, write the fixed greeting, and only then copy. Nothing is
/// copied unless the greeting was written just before.
pub proof fn lemma_tunnel_greets_before_it_copies(address: String, state: State, event: Event)
    ensures
        ({
            let planned = Event::Handled(Ok(Plan::Tunnel { address }));
            &&& next_state(State::ReadRequest, planned) == State::ConnectToOrigin
            &&& action_for(State::ConnectToOrigin, planned) == (ActionView::Connect {
                address: address@,
            })
        }),
        next_state(State::ConnectToOrigin, Event::Done) == State::DiscardClientPreamble,
        action_for(State::DiscardClientPreamble, Event::Done) == ActionView::Drain,
        next_state(State::DiscardClientPreamble, Event::Done) == State::WriteEstablished,
        action_for(State::WriteEstablished, Event::Done) == (ActionView::Write {
            text: SUCCESS_MSG_HTTP_200_OK@,
        }),
        next_state(State::WriteEstablished, Event::Done) == State::Tunnel,
        action_for(next_state(state, event), event) == ActionView::Copy ==> state
            == State::WriteEstablished && event == Event::Done,
{
}

} // verus!
