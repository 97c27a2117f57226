//! The orchestrator: decode, increment, invoke, decode the answer, return.
//!
//! The two remote calls cannot be made from here. The orchestrator is
//! therefore a state machine: [`step`] takes the state and a [`Signal`],
//! which is the incoming document or the outcome of a remote call, and gives
//! the next state and an [`Action`], which is what the caller is to do next.
//! [`next`] is the same function over views, and is what the contracts and
//! the laws speak of.

use vstd::prelude::*;
use crate::config::{Config, ConfigView};
use crate::counter::{increment_of, CounterUpdate, CounterUpdateView};
use crate::error::HandlerError;
use crate::event::{decode, decoding, Event};
use crate::json::{json_document, parse};

verus! {

/// A request to the invoker: run the named handler on a payload and wait for
/// its answer.
#[derive(Clone, Debug, PartialEq, Eq)]
pub struct InvokeRequest {
    pub function_name: String,
    pub payload: String,
}

/// An invoke request as contracts speak of it.
pub struct InvokeRequestView {
    pub function_name: Seq<char>,
    pub payload: Seq<char>,
}

impl View for InvokeRequest {
    type V = InvokeRequestView;

    open spec fn view(&self) -> InvokeRequestView {
        InvokeRequestView { function_name: self.function_name@, payload: self.payload@ }
    }
}

/// How far an invocation has come.
#[derive(Clone, Debug, PartialEq, Eq)]
pub enum State {
    /// Nothing has happened yet.
    Start,
    /// The document is decoded, and the counter update is under way.
    Decoded { event: Event, raw: String },
    /// The counter is updated, and the downstream call is under way.
    Incremented,
    /// The downstream handler has answered with a payload.
    Invoked { payload: Vec<u8> },
    /// The answer has been handed back.
    Done,
    /// The invocation has failed. Nothing follows.
    Failed { reason: HandlerError },
}

/// A state as contracts speak of it.
pub enum StateView {
    Start,
    Decoded { path: Seq<char>, raw: Seq<char> },
    Incremented,
    Invoked { payload: Seq<u8> },
    Done,
    Failed { reason: HandlerError },
}

impl View for State {
    type V = StateView;

    open spec fn view(&self) -> StateView {
        match *self {
            State::Start => StateView::Start,
            State::Decoded { event, raw } => StateView::Decoded { path: event.path@, raw: raw@ },
            State::Incremented => StateView::Incremented,
            State::Invoked { payload } => StateView::Invoked { payload: payload@ },
            State::Done => StateView::Done,
            State::Failed { reason } => StateView::Failed { reason },
        }
    }
}

/// What reaches the orchestrator from outside.
#[derive(Debug, PartialEq, Eq)]
pub enum Signal {
    /// The incoming document.
    Received(serde_json::Value),
    /// The counter store has accepted the update.
    Stored,
    /// The counter store has rejected the update, or could not be reached.
    StoreFailed,
    /// The downstream call has returned: with the error that the downstream
    /// handler reported, if it reported one, and with a payload or without
    /// one.
    Responded { function_error: Option<String>, payload: Option<Vec<u8>> },
    /// The downstream call could not be made, or did not return.
    InvokeFailed,
}

/// A signal as contracts speak of it.
pub enum SignalView {
    Received(serde_json::Value),
    Stored,
    StoreFailed,
    Responded { function_error: Option<Seq<char>>, payload: Option<Seq<u8>> },
    InvokeFailed,
}

/// The bytes of an optional payload.
pub open spec fn payload_of(payload: Option<Vec<u8>>) -> Option<Seq<u8>> {
    match payload {
        Some(bytes) => Some(bytes@),
        None => None,
    }
}

/// The text of an optional error report.
pub open spec fn report_of(function_error: Option<String>) -> Option<Seq<char>> {
    match function_error {
        Some(report) => Some(report@),
        None => None,
    }
}

impl View for Signal {
    type V = SignalView;

    open spec fn view(&self) -> SignalView {
        match *self {
            Signal::Received(document) => SignalView::Received(document),
            Signal::Stored => SignalView::Stored,
            Signal::StoreFailed => SignalView::StoreFailed,
            Signal::Responded { function_error, payload } => SignalView::Responded {
                function_error: report_of(function_error),
                payload: payload_of(payload),
            },
            Signal::InvokeFailed => SignalView::InvokeFailed,
        }
    }
}

/// What the orchestrator asks of its caller.
#[derive(Debug, PartialEq, Eq)]
pub enum Action {
    /// Send the update to the counter store, and answer with
    /// [`Signal::Stored`] or [`Signal::StoreFailed`].
    Increment(CounterUpdate),
    /// Make the downstream call, and answer with [`Signal::Responded`] or
    /// [`Signal::InvokeFailed`].
    Invoke(InvokeRequest),
    /// Return the document as the result of the invocation.
    Respond(serde_json::Value),
    /// Fail the invocation.
    Fail(HandlerError),
    /// Do nothing: the signal was not one that the state awaits.
    Nothing,
}

/// An action as contracts speak of it.
pub enum ActionView {
    Increment(CounterUpdateView),
    Invoke(InvokeRequestView),
    Respond(serde_json::Value),
    Fail(HandlerError),
    Nothing,
}

impl View for Action {
    type V = ActionView;

    open spec fn view(&self) -> ActionView {
        match *self {
            Action::Increment(update) => ActionView::Increment(update@),
            Action::Invoke(request) => ActionView::Invoke(request@),
            Action::Respond(document) => ActionView::Respond(document),
            Action::Fail(reason) => ActionView::Fail(reason),
            Action::Nothing => ActionView::Nothing,
        }
    }
}

/// The failure sink: the state and the action of an invocation that fails.
pub open spec fn failed(reason: HandlerError) -> (StateView, ActionView) {
    (StateView::Failed { reason }, ActionView::Fail(reason))
}

/// Where a downstream payload leads: to the document that it holds, which
/// is returned as it is, or to a decode failure where it holds none.
pub open spec fn concluded(payload: Seq<u8>) -> (StateView, ActionView) {
    match json_document(payload) {
        Some(document) => (StateView::Done, ActionView::Respond(document)),
        None => failed(HandlerError::Decode),
    }
}

/// Where the outcome of the downstream call leads: a call in which the
/// downstream handler reported an error, or which brought no payload or an
/// empty one, has failed.
pub open spec fn answered(function_error: Option<Seq<char>>, payload: Option<Seq<u8>>) -> (
    StateView,
    ActionView,
) {
    if function_error is Some {
        failed(HandlerError::Invoke)
    } else {
        match payload {
            Some(bytes) => if bytes.len() == 0 {
                failed(HandlerError::Invoke)
            } else {
                concluded(bytes)
            },
            None => failed(HandlerError::Invoke),
        }
    }
}

/// The orchestrator's transition function.
///
/// From `Start` the incoming document is decoded: on success the counter
/// update for its path is asked for. From `Decoded` the update's success
/// asks for the downstream call, with the text of the whole document as
/// payload. From `Incremented` the call's answer is decoded and returned.
/// From `Invoked` the payload at hand is decoded, whatever the signal. Every
/// failure leads to `Failed`. A signal that the state does not await, and
/// any signal after `Done` or `Failed`, changes nothing and asks for nothing.
pub open spec fn next(config: ConfigView, state: StateView, signal: SignalView) -> (
    StateView,
    ActionView,
) {
    match state {
        StateView::Start => match signal {
            SignalView::Received(document) => match decoding(document) {
                Some((path, raw)) => (
                    StateView::Decoded { path, raw },
                    ActionView::Increment(increment_of(config.table_name, path)),
                ),
                None => failed(HandlerError::Decode),
            },
            _ => (state, ActionView::Nothing),
        },
        StateView::Decoded { path, raw } => match signal {
            SignalView::Stored => (
                StateView::Incremented,
                ActionView::Invoke(
                    InvokeRequestView {
                        function_name: config.downstream_function_name,
                        payload: raw,
                    },
                ),
            ),
            SignalView::StoreFailed => failed(HandlerError::Store),
            _ => (state, ActionView::Nothing),
        },
        StateView::Incremented => match signal {
            SignalView::Responded { function_error, payload } => answered(function_error, payload),
            SignalView::InvokeFailed => failed(HandlerError::Invoke),
            _ => (state, ActionView::Nothing),
        },
        StateView::Invoked { payload } => concluded(payload),
        StateView::Done => (state, ActionView::Nothing),
        StateView::Failed { .. } => (state, ActionView::Nothing),
    }
}

/// Fails the invocation for a reason.
pub fn fail(reason: HandlerError) -> (r: (State, Action))
    ensures
        (r.0@, r.1@) == failed(reason),
{
    (State::Failed { reason }, Action::Fail(reason))
}

/// Decodes a downstream payload and concludes the invocation with it.
pub fn conclude(payload: &[u8]) -> (r: (State, Action))
    ensures
        (r.0@, r.1@) == concluded(payload@),
{
    match parse(payload) {
        Ok(document) => (State::Done, Action::Respond(document)),
        Err(_) => fail(HandlerError::Decode),
    }
}

/// Takes the outcome of the downstream call.
pub fn answer(function_error: Option<String>, payload: Option<Vec<u8>>) -> (r: (State, Action))
    ensures
        (r.0@, r.1@) == answered(report_of(function_error), payload_of(payload)),
{
    if function_error.is_some() {
        return fail(HandlerError::Invoke);
    }
    match payload {
        Some(bytes) => {
            if bytes.len() == 0 {
                fail(HandlerError::Invoke)
            } else {
                conclude(bytes.as_slice())
            }
        },
        None => fail(HandlerError::Invoke),
    }
}

/// Takes the incoming document: decodes it and asks for the counter update
/// of its path in the configured table.
pub fn receive(config: &Config, document: &serde_json::Value) -> (r: (State, Action))
    ensures
        (r.0@, r.1@) == next(config@, StateView::Start, SignalView::Received(*document)),
{
    match decode(document) {
        Ok(decoded) => {
            let update = CounterUpdate::increment(
                config.table_name.as_str(),
                decoded.event.path.as_str(),
            );
            (State::Decoded { event: decoded.event, raw: decoded.raw }, Action::Increment(update))
        },
        Err(_) => fail(HandlerError::Decode),
    }
}

/// Makes one transition: the state and the action that [`next`] gives.
pub fn step(config: &Config, state: State, signal: Signal) -> (r: (State, Action))
    ensures
        (r.0@, r.1@) == next(config@, state@, signal@),
{
    match state {
        State::Start => match signal {
            Signal::Received(document) => receive(config, &document),
            _ => (State::Start, Action::Nothing),
        },
        State::Decoded { event, raw } => match signal {
            Signal::Stored => {
                let request = InvokeRequest {
                    function_name: config.downstream_function_name.clone(),
                    payload: raw,
                };
                (State::Incremented, Action::Invoke(request))
            },
            Signal::StoreFailed => fail(HandlerError::Store),
            _ => (State::Decoded { event, raw }, Action::Nothing),
        },
        State::Incremented => match signal {
            Signal::Responded { function_error, payload } => answer(function_error, payload),
            Signal::InvokeFailed => fail(HandlerError::Invoke),
            _ => (State::Incremented, Action::Nothing),
        },
        State::Invoked { payload } => conclude(payload.as_slice()),
        State::Done => (State::Done, Action::Nothing),
        State::Failed { reason } => (State::Failed { reason }, Action::Nothing),
    }
}

} // verus!
