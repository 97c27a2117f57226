//! What holds of every invocation, whatever signals reach it.
//!
//! An invocation is a run of the orchestrator from `Start` over a sequence
//! of signals. The laws below speak of the actions that such a run asks
//! for, and of the counter table once the store has evaluated the updates
//! among them.

use vstd::prelude::*;
use crate::config::ConfigView;
use crate::counter::{applied, hits, increment_of};
use crate::error::HandlerError;
use crate::event::{decoding, event_path};
use crate::handler::{next, ActionView, SignalView, StateView};
use crate::json::{json_document, json_text};

verus! {

/// The signals but the first.
pub open spec fn later(signals: Seq<SignalView>) -> Seq<SignalView> {
    signals.subrange(1, signals.len() as int)
}

/// The actions that the orchestrator asks for, one for each signal, when it
/// takes the signals in turn from a state.
pub open spec fn run(config: ConfigView, state: StateView, signals: Seq<SignalView>) -> Seq<
    ActionView,
>
    decreases signals.len(),
{
    if signals.len() == 0 {
        Seq::empty()
    } else {
        let (state_then, action) = next(config, state, signals[0]);
        seq![action] + run(config, state_then, later(signals))
    }
}

/// The state that the orchestrator is in after it has taken the signals in
/// turn from a state.
pub open spec fn state_after(config: ConfigView, state: StateView, signals: Seq<SignalView>) -> StateView
    decreases signals.len(),
{
    if signals.len() == 0 {
        state
    } else {
        state_after(config, next(config, state, signals[0]).0, later(signals))
    }
}

/// The table after the store has evaluated an action: only an update
/// changes it.
pub open spec fn effect(table: Map<Seq<char>, nat>, action: ActionView) -> Map<Seq<char>, nat> {
    match action {
        ActionView::Increment(update) => applied(table, update),
        _ => table,
    }
}

/// The table after the store has evaluated the updates among some actions.
pub open spec fn table_after(table: Map<Seq<char>, nat>, actions: Seq<ActionView>) -> Map<
    Seq<char>,
    nat,
>
    decreases actions.len(),
{
    if actions.len() == 0 {
        table
    } else {
        table_after(effect(table, actions[0]), actions.subrange(1, actions.len() as int))
    }
}

/// A run asks for one action per signal.
pub proof fn run_answers_each_signal(
    config: ConfigView,
    state: StateView,
    signals: Seq<SignalView>,
)
    ensures
        run(config, state, signals).len() == signals.len(),
    decreases signals.len(),
{
    if signals.len() > 0 {
        run_answers_each_signal(config, next(config, state, signals[0]).0, later(signals));
    }
}

/// `Done` and `Failed` are terminal: whatever signals follow, the state
/// stays and nothing is asked for.
pub proof fn terminal_states_stay(config: ConfigView, state: StateView, signals: Seq<SignalView>)
    requires
        state is Done || state is Failed,
    ensures
        state_after(config, state, signals) == state,
        forall|i: int|
            0 <= i < run(config, state, signals).len() ==> run(config, state, signals)[i]
                == ActionView::Nothing,
    decreases signals.len(),
{
    if signals.len() > 0 {
        terminal_states_stay(config, state, later(signals));
    }
}

/// Once the counter update has succeeded or failed, neither the store nor
/// the downstream handler is asked for anything again.
pub proof fn remote_calls_are_over(config: ConfigView, state: StateView, signals: Seq<SignalView>)
    requires
        !(state is Start) && !(state is Decoded),
    ensures
        forall|i: int|
            0 <= i < run(config, state, signals).len() ==> !(run(config, state, signals)[i]
                is Increment) && !(run(config, state, signals)[i] is Invoke),
    decreases signals.len(),
{
    if signals.len() > 0 {
        remote_calls_are_over(config, next(config, state, signals[0]).0, later(signals));
    }
}

/// After decoding, the counter is not updated again, and the downstream
/// handler is asked for nothing but the configured function on the text of
/// the whole document.
pub proof fn decoded_text_is_forwarded(
    config: ConfigView,
    path: Seq<char>,
    raw: Seq<char>,
    signals: Seq<SignalView>,
)
    ensures
        forall|i: int|
            0 <= i < run(config, StateView::Decoded { path, raw }, signals).len() ==> {
                let action = #[trigger] run(config, StateView::Decoded { path, raw }, signals)[i];
                &&& !(action is Increment)
                &&& action is Invoke ==> action->Invoke_0.payload == raw
                    && action->Invoke_0.function_name == config.downstream_function_name
            },
    decreases signals.len(),
{
    if signals.len() > 0 {
        let state = StateView::Decoded { path, raw };
        let state_then = next(config, state, signals[0]).0;
        if state_then is Decoded {
            decoded_text_is_forwarded(config, path, raw, later(signals));
        } else {
            remote_calls_are_over(config, state_then, later(signals));
        }
    }
}

/// Actions without an update among them leave the table as it is.
pub proof fn table_changes_by_updates_only(table: Map<Seq<char>, nat>, actions: Seq<ActionView>)
    requires
        forall|i: int| 0 <= i < actions.len() ==> !(actions[i] is Increment),
    ensures
        table_after(table, actions) == table,
    decreases actions.len(),
{
    if actions.len() > 0 {
        table_changes_by_updates_only(table, actions.subrange(1, actions.len() as int));
    }
}

/// An invocation whose document decodes with path `path` raises the hits of
/// `path` by exactly one and leaves every other counter as it is, whatever
/// happens after the update was asked for: a later failure does not undo
/// it, and no later signal makes it count twice.
pub proof fn each_invocation_counts_once(
    config: ConfigView,
    document: serde_json::Value,
    path: Seq<char>,
    raw: Seq<char>,
    signals: Seq<SignalView>,
    table: Map<Seq<char>, nat>,
)
    requires
        signals.len() > 0,
        signals[0] == SignalView::Received(document),
        decoding(document) == Some((path, raw)),
    ensures
        run(config, StateView::Start, signals)[0] == ActionView::Increment(
            increment_of(config.table_name, path),
        ),
        table_after(table, run(config, StateView::Start, signals)) == table.insert(
            path,
            hits(table, path) + 1,
        ),
        hits(table_after(table, run(config, StateView::Start, signals)), path) == hits(table, path)
            + 1,
        forall|other: Seq<char>|
            other != path ==> hits(table_after(table, run(config, StateView::Start, signals)), other)
                == hits(table, other),
{
    let actions = run(config, StateView::Start, signals);
    let rest = run(config, StateView::Decoded { path, raw }, later(signals));
    assert(actions.subrange(1, actions.len() as int) =~= rest);
    decoded_text_is_forwarded(config, path, raw, later(signals));
    table_changes_by_updates_only(effect(table, actions[0]), rest);
}

/// An invocation whose input does not decode fails at once, and asks
/// neither for a counter update nor for a downstream call, whatever signals
/// follow.
pub proof fn undecodable_input_has_no_effect(
    config: ConfigView,
    document: serde_json::Value,
    signals: Seq<SignalView>,
    table: Map<Seq<char>, nat>,
)
    requires
        signals.len() > 0,
        signals[0] == SignalView::Received(document),
        decoding(document) is None,
    ensures
        run(config, StateView::Start, signals)[0] == ActionView::Fail(HandlerError::Decode),
        state_after(config, StateView::Start, signals) == (StateView::Failed {
            reason: HandlerError::Decode,
        }),
        forall|i: int|
            0 <= i < run(config, StateView::Start, signals).len() ==> !(run(
                config,
                StateView::Start,
                signals,
            )[i] is Increment) && !(run(config, StateView::Start, signals)[i] is Invoke),
        table_after(table, run(config, StateView::Start, signals)) == table,
{
    let sink = StateView::Failed { reason: HandlerError::Decode };
    terminal_states_stay(config, sink, later(signals));
    table_changes_by_updates_only(table, run(config, StateView::Start, signals));
}

/// In a run from `Start`, every downstream call that is asked for carries
/// the text of the whole incoming document, with every member that the
/// document has and not only its path, and goes to the configured function.
/// None is asked for unless the document has a path.
pub proof fn forwarded_payload_is_the_document_text(
    config: ConfigView,
    document: serde_json::Value,
    signals: Seq<SignalView>,
)
    requires
        signals.len() > 0,
        signals[0] == SignalView::Received(document),
    ensures
        forall|i: int|
            0 <= i < run(config, StateView::Start, signals).len() ==> {
                let action = #[trigger] run(config, StateView::Start, signals)[i];
                action is Invoke ==> event_path(document) is Some && json_text(document) == Some(
                    action->Invoke_0.payload,
                ) && action->Invoke_0.function_name == config.downstream_function_name
            },
{
    match decoding(document) {
        Some((path, raw)) => {
            decoded_text_is_forwarded(config, path, raw, later(signals));
        },
        None => {
            terminal_states_stay(
                config,
                StateView::Failed { reason: HandlerError::Decode },
                later(signals),
            );
        },
    }
}

/// Where the counter update fails, the invocation fails with
/// [`HandlerError::Store`] and the downstream handler is never asked for
/// anything, whatever signals follow.
pub proof fn failed_update_prevents_invocation(
    config: ConfigView,
    path: Seq<char>,
    raw: Seq<char>,
    signals: Seq<SignalView>,
)
    requires
        signals.len() > 0,
        signals[0] == SignalView::StoreFailed,
    ensures
        run(config, StateView::Decoded { path, raw }, signals)[0] == ActionView::Fail(
            HandlerError::Store,
        ),
        state_after(config, StateView::Decoded { path, raw }, signals) == (StateView::Failed {
            reason: HandlerError::Store,
        }),
        forall|i: int|
            0 <= i < run(config, StateView::Decoded { path, raw }, signals).len() ==> !(run(
                config,
                StateView::Decoded { path, raw },
                signals,
            )[i] is Invoke),
{
    terminal_states_stay(
        config,
        StateView::Failed { reason: HandlerError::Store },
        later(signals),
    );
}

/// However an invocation goes on, no counter ever falls: the handler asks
/// the store for nothing but additions.
pub proof fn counters_never_fall(
    config: ConfigView,
    state: StateView,
    signals: Seq<SignalView>,
    table: Map<Seq<char>, nat>,
    key: Seq<char>,
)
    ensures
        hits(table_after(table, run(config, state, signals)), key) >= hits(table, key),
    decreases signals.len(),
{
    if signals.len() > 0 {
        let (state_then, action) = next(config, state, signals[0]);
        let actions = run(config, state, signals);
        assert(actions.subrange(1, actions.len() as int) =~= run(
            config,
            state_then,
            later(signals),
        ));
        counters_never_fall(config, state_then, later(signals), effect(table, action), key);
    }
}

/// An invocation whose counter update fails never asks for the downstream
/// call, whether or not its document decodes and whatever signals follow.
pub proof fn no_invocation_without_update(
    config: ConfigView,
    document: serde_json::Value,
    signals: Seq<SignalView>,
)
    requires
        signals.len() > 1,
        signals[0] == SignalView::Received(document),
        signals[1] == SignalView::StoreFailed,
    ensures
        forall|i: int|
            0 <= i < run(config, StateView::Start, signals).len() ==> !(run(
                config,
                StateView::Start,
                signals,
            )[i] is Invoke),
{
    match decoding(document) {
        Some((path, raw)) => {
            failed_update_prevents_invocation(config, path, raw, later(signals));
        },
        None => {
            terminal_states_stay(
                config,
                StateView::Failed { reason: HandlerError::Decode },
                later(signals),
            );
        },
    }
}

/// Whether the outcome of the downstream call is a failure of the call: it
/// could not be made, the downstream handler reported an error, or it
/// brought no payload or an empty one.
pub open spec fn call_failed(signal: SignalView) -> bool {
    match signal {
        SignalView::InvokeFailed => true,
        SignalView::Responded { function_error, payload } => function_error is Some || payload
            is None || payload->Some_0.len() == 0,
        _ => false,
    }
}

/// Whether the outcome of the downstream call is a payload that holds no
/// document.
pub open spec fn answer_malformed(signal: SignalView) -> bool {
    match signal {
        SignalView::Responded { function_error: None, payload: Some(payload) } => payload.len()
            > 0 && json_document(payload) is None,
        _ => false,
    }
}

/// Where the downstream call fails, or brings a payload that holds no
/// document, the invocation fails, with [`HandlerError::Invoke`] in the
/// first case and with [`HandlerError::Decode`] in the second, and no
/// response is ever returned.
pub proof fn failed_call_gives_no_response(config: ConfigView, signals: Seq<SignalView>)
    requires
        signals.len() > 0,
        call_failed(signals[0]) || answer_malformed(signals[0]),
    ensures
        run(config, StateView::Incremented, signals)[0] == ActionView::Fail(
            if call_failed(signals[0]) {
                HandlerError::Invoke
            } else {
                HandlerError::Decode
            },
        ),
        state_after(config, StateView::Incremented, signals) is Failed,
        forall|i: int|
            0 <= i < run(config, StateView::Incremented, signals).len() ==> !(run(
                config,
                StateView::Incremented,
                signals,
            )[i] is Respond),
{
    let state_then = next(config, StateView::Incremented, signals[0]).0;
    terminal_states_stay(config, state_then, later(signals));
}

/// An invocation whose downstream call fails, or brings a payload that
/// holds no document, never returns a response, whatever signals follow.
pub proof fn no_response_without_answer(
    config: ConfigView,
    document: serde_json::Value,
    signals: Seq<SignalView>,
)
    requires
        signals.len() > 2,
        signals[0] == SignalView::Received(document),
        signals[1] == SignalView::Stored,
        call_failed(signals[2]) || answer_malformed(signals[2]),
    ensures
        state_after(config, StateView::Start, signals) is Failed,
        forall|i: int|
            0 <= i < run(config, StateView::Start, signals).len() ==> !(run(
                config,
                StateView::Start,
                signals,
            )[i] is Respond),
{
    let rest = later(signals);
    match decoding(document) {
        Some((path, raw)) => {
            failed_call_gives_no_response(config, later(rest));
            assert(state_after(config, StateView::Start, signals) == state_after(
                config,
                StateView::Decoded { path, raw },
                rest,
            ));
            assert(state_after(config, StateView::Decoded { path, raw }, rest) == state_after(
                config,
                StateView::Incremented,
                later(rest),
            ));
            assert(run(config, StateView::Decoded { path, raw }, rest) =~= seq![
                next(config, StateView::Decoded { path, raw }, rest[0]).1,
            ] + run(config, StateView::Incremented, later(rest)));
        },
        None => {
            terminal_states_stay(
                config,
                StateView::Failed { reason: HandlerError::Decode },
                rest,
            );
        },
    }
}

/// Where the downstream call brings no error report and a payload that
/// holds a document, that document is the response, as it is.
pub proof fn response_is_relayed(config: ConfigView, payload: Seq<u8>, document: serde_json::Value)
    requires
        payload.len() > 0,
        json_document(payload) == Some(document),
    ensures
        next(
            config,
            StateView::Incremented,
            SignalView::Responded { function_error: None, payload: Some(payload) },
        ) == (
            StateView::Done,
            ActionView::Respond(document),
        ),
{
}

} // verus!
