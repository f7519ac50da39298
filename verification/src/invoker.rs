//! The invoker: one transfer for each block-commit notification, never two at
//! a time, until the stream ends or fails.

use vstd::prelude::*;
use crate::model::{OperationError, OperationResult};

verus! {

/// Where the invoker stands.
#[derive(Clone, Copy, Debug, PartialEq, Eq)]
pub enum InvokerState {
    Connecting,
    Subscribed,
    Idle,
    Executing,
    Closed,
}

/// The kinds of event that a subscription may deliver.
#[derive(Clone, Copy, Debug, PartialEq, Eq)]
pub enum Notification {
    BlockMeta,
    Other,
}

/// The event categories that a subscription asks for.
#[derive(Clone, Copy, Debug, PartialEq, Eq)]
pub struct SubscriptionFilter {
    pub slots: bool,
    pub accounts: bool,
    pub transactions: bool,
    pub transactions_status: bool,
    pub entries: bool,
    pub blocks: bool,
    pub blocks_meta: bool,
}

/// What happened outside the invoker.
#[derive(Debug, PartialEq, Eq)]
pub enum InvokerEvent {
    ConnectFailed(String),
    SubscriptionOpened,
    SubscriptionFailed(String),
    Item(Result<Notification, String>),
    StreamEnded,
    Executed(Result<OperationResult, OperationError>),
}

/// What the invoker asks for next.
#[derive(Debug, PartialEq, Eq)]
pub enum InvokerAction {
    Subscribe(SubscriptionFilter),
    AwaitItem,
    Execute,
    Report(Result<OperationResult, OperationError>),
    Fail(String),
    ReportStreamError(String),
    Stop,
    Refuse,
}

/// The filter that lets block-commit metadata through and nothing else.
pub open spec fn block_meta_filter() -> SubscriptionFilter {
    SubscriptionFilter {
        slots: false,
        accounts: false,
        transactions: false,
        transactions_status: false,
        entries: false,
        blocks: false,
        blocks_meta: true,
    }
}

/// The filter that lets block-commit metadata through and nothing else.
pub fn block_meta_only() -> (filter: SubscriptionFilter)
    ensures
        filter == block_meta_filter(),
{
    SubscriptionFilter {
        slots: false,
        accounts: false,
        transactions: false,
        transactions_status: false,
        entries: false,
        blocks: false,
        blocks_meta: true,
    }
}

/// Whether `state` waits for the next item of the stream.
pub open spec fn awaits_item(state: InvokerState) -> bool {
    state == InvokerState::Subscribed || state == InvokerState::Idle
}

/// The state that follows and the action to take when `event` arrives in `state`.
pub open spec fn transition(state: InvokerState, event: InvokerEvent) -> (InvokerState, InvokerAction) {
    match (state, event) {
        (InvokerState::Connecting, InvokerEvent::SubscriptionOpened) => (
            InvokerState::Subscribed,
            InvokerAction::AwaitItem,
        ),
        (InvokerState::Connecting, InvokerEvent::ConnectFailed(detail)) => (
            InvokerState::Closed,
            InvokerAction::Fail(detail),
        ),
        (InvokerState::Connecting, InvokerEvent::SubscriptionFailed(detail)) => (
            InvokerState::Closed,
            InvokerAction::Fail(detail),
        ),
        (InvokerState::Executing, InvokerEvent::Executed(result)) => (
            InvokerState::Idle,
            InvokerAction::Report(result),
        ),
        (_, InvokerEvent::Item(Ok(Notification::BlockMeta))) => if awaits_item(state) {
            (InvokerState::Executing, InvokerAction::Execute)
        } else {
            (state, InvokerAction::Refuse)
        },
        (_, InvokerEvent::Item(Ok(Notification::Other))) => if awaits_item(state) {
            (InvokerState::Idle, InvokerAction::AwaitItem)
        } else {
            (state, InvokerAction::Refuse)
        },
        (_, InvokerEvent::Item(Err(detail))) => if awaits_item(state) {
            (InvokerState::Closed, InvokerAction::ReportStreamError(detail))
        } else {
            (state, InvokerAction::Refuse)
        },
        (_, InvokerEvent::StreamEnded) => if awaits_item(state) {
            (InvokerState::Closed, InvokerAction::Stop)
        } else {
            (state, InvokerAction::Refuse)
        },
        _ => (state, InvokerAction::Refuse),
    }
}

/// Starts an invoker: it is connecting, and asks for a connection and a
/// subscription to block-commit metadata and nothing else.
pub fn begin() -> (result: (InvokerState, InvokerAction))
    ensures
        result == (InvokerState::Connecting, InvokerAction::Subscribe(block_meta_filter())),
{
    (InvokerState::Connecting, InvokerAction::Subscribe(block_meta_only()))
}

/// Takes one event: gives the state that follows and the action to take. An
/// event that the state does not wait for is refused and changes nothing; in
/// `Closed` every event is.
pub fn advance(state: InvokerState, event: InvokerEvent) -> (result: (InvokerState, InvokerAction))
    ensures
        result == transition(state, event),
{
    match state {
        InvokerState::Connecting => match event {
            InvokerEvent::SubscriptionOpened => (InvokerState::Subscribed, InvokerAction::AwaitItem),
            InvokerEvent::ConnectFailed(detail) => (InvokerState::Closed, InvokerAction::Fail(detail)),
            InvokerEvent::SubscriptionFailed(detail) => (
                InvokerState::Closed,
                InvokerAction::Fail(detail),
            ),
            _ => (state, InvokerAction::Refuse),
        },
        InvokerState::Subscribed | InvokerState::Idle => match event {
            InvokerEvent::Item(Ok(Notification::BlockMeta)) => (
                InvokerState::Executing,
                InvokerAction::Execute,
            ),
            InvokerEvent::Item(Ok(Notification::Other)) => (
                InvokerState::Idle,
                InvokerAction::AwaitItem,
            ),
            InvokerEvent::Item(Err(detail)) => (
                InvokerState::Closed,
                InvokerAction::ReportStreamError(detail),
            ),
            InvokerEvent::StreamEnded => (InvokerState::Closed, InvokerAction::Stop),
            _ => (state, InvokerAction::Refuse),
        },
        InvokerState::Executing => match event {
            InvokerEvent::Executed(result) => (InvokerState::Idle, InvokerAction::Report(result)),
            _ => (state, InvokerAction::Refuse),
        },
        InvokerState::Closed => (state, InvokerAction::Refuse),
    }
}

/// The number of executions in flight in `state`.
pub open spec fn executions_in_flight(state: InvokerState) -> nat {
    if state == InvokerState::Executing {
        1
    } else {
        0
    }
}

/// The state once the execution in flight, if any, has returned.
pub open spec fn settled(state: InvokerState) -> InvokerState {
    if state == InvokerState::Executing {
        InvokerState::Idle
    } else {
        state
    }
}

/// The state after the stream's items were taken one at a time, each handled
/// to the end before the next is asked for, and the number of executions made.
pub open spec fn consume(state: InvokerState, items: Seq<Result<Notification, String>>) -> (
    InvokerState,
    nat,
)
    decreases items.len(),
{
    if items.len() == 0 {
        (state, 0)
    } else {
        let (reached, action) = transition(state, InvokerEvent::Item(items[0]));
        let (last, count) = consume(settled(reached), items.drop_first());
        (
            last,
            count + if action is Execute {
                1nat
            } else {
                0nat
            },
        )
    }
}

/// The number of block-commit notifications in front of the first error.
pub open spec fn qualifying(items: Seq<Result<Notification, String>>) -> nat
    decreases items.len(),
{
    if items.len() == 0 {
        0
    } else {
        match items[0] {
            Err(_) => 0,
            Ok(Notification::BlockMeta) => 1 + qualifying(items.drop_first()),
            Ok(Notification::Other) => qualifying(items.drop_first()),
        }
    }
}

/// The number of block-commit notifications among `items`.
pub open spec fn block_commits(items: Seq<Result<Notification, String>>) -> nat
    decreases items.len(),
{
    if items.len() == 0 {
        0
    } else {
        block_commits(items.drop_first()) + if items[0] == Ok::<Notification, String>(
            Notification::BlockMeta,
        ) {
            1nat
        } else {
            0nat
        }
    }
}

/// Whether the stream delivers an error.
pub open spec fn has_error(items: Seq<Result<Notification, String>>) -> bool {
    exists|k: int| 0 <= k < items.len() && (#[trigger] items[k]) is Err
}

/// When an execution returns, the invoker is idle again, whatever the
/// execution returned, and hands the result on to be reported.
pub proof fn lemma_execution_returns_to_idle(result: Result<OperationResult, OperationError>)
    ensures
        transition(InvokerState::Executing, InvokerEvent::Executed(result)) == (
            InvokerState::Idle,
            InvokerAction::Report(result),
        ),
        settled(InvokerState::Executing) == InvokerState::Idle,
{
}

/// At most one execution is in flight in any state. An execution starts only
/// where none is in flight, and a notification that arrives during one starts
/// nothing and changes nothing.
pub proof fn lemma_one_execution_at_a_time(state: InvokerState, event: InvokerEvent)
    ensures
        executions_in_flight(state) <= 1,
        executions_in_flight(transition(state, event).0) <= 1,
        transition(state, event).1 is Execute ==> executions_in_flight(state) == 0
            && executions_in_flight(transition(state, event).0) == 1,
        state == InvokerState::Executing && !(event is Executed) ==> transition(state, event) == (
            state,
            InvokerAction::Refuse,
        ),
{
}

/// Once closed, the invoker stays closed and starts nothing.
pub proof fn lemma_closed_is_terminal(items: Seq<Result<Notification, String>>)
    ensures
        consume(InvokerState::Closed, items) == (InvokerState::Closed, 0nat),
    decreases items.len(),
{
    if items.len() > 0 {
        lemma_closed_is_terminal(items.drop_first());
    }
}

/// A freshly subscribed invoker takes the items of the stream as an idle one does.
pub proof fn lemma_subscribed_acts_as_idle(event: InvokerEvent)
    requires
        event is Item || event is StreamEnded,
    ensures
        transition(InvokerState::Subscribed, event) == transition(InvokerState::Idle, event),
{
}

/// An invoker that waits for items makes one execution for each block-commit
/// notification in front of the first error and none for anything else. It
/// ends closed where the stream delivers an error; where it does not, it
/// waits again.
pub proof fn lemma_filtering(start: InvokerState, items: Seq<Result<Notification, String>>)
    requires
        awaits_item(start),
    ensures
        consume(start, items).1 == qualifying(items),
        has_error(items) ==> consume(start, items).0 == InvokerState::Closed,
        !has_error(items) ==> awaits_item(consume(start, items).0),
        !has_error(items) ==> qualifying(items) == block_commits(items),
    decreases items.len(),
{
    if items.len() > 0 {
        let rest = items.drop_first();
        lemma_filtering(InvokerState::Idle, rest);
        lemma_closed_is_terminal(rest);
        assert(forall|k: int| 0 <= k < rest.len() ==> rest[k] == items[k + 1]);
        match items[0] {
            Err(_) => {
                assert(items[0] is Err);
            },
            Ok(_) => {
                if has_error(rest) {
                    let k = choose|k: int| 0 <= k < rest.len() && (#[trigger] rest[k]) is Err;
                    assert(items[k + 1] is Err);
                }
                if has_error(items) {
                    let k = choose|k: int| 0 <= k < items.len() && (#[trigger] items[k]) is Err;
                    assert(rest[k - 1] is Err);
                }
            },
        }
    }
}

} // verus!
