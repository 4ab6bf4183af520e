//! One transfer for every event of a live ledger stream.
//!
//! The dispatcher is a state machine:
//!
//! ```text
//! Connecting -> Subscribed -> { Idle <-> Dispatching } -> Closed
//! ```
//!
//! [`Dispatcher::step`] holds its decisions. Whoever runs the dispatcher
//! connects to the stream, performs each action that `step` hands out and
//! feeds back what happened, with a reading of a monotonic clock in
//! nanoseconds. Transfers are made one at a time: the stream is read only in
//! `Idle`, and `Idle` is left for `Dispatching` on an event and regained only
//! when the transfer of that event has its outcome.

use crate::transfer::{
    prepared, request_error, transfer_step, RequestError, TransferAction, TransferActionView,
    TransferEvent, TransferEventView, TransferOutcome, TransferOutcomeView, TransferRequest,
    TransferTask, TransferTaskView,
};
use solana_sdk::transaction::Transaction;
use vstd::prelude::*;

verus! {

/// Where a dispatcher stands.
#[derive(Clone, Copy, Debug, PartialEq, Eq)]
pub enum DispatcherPhase {
    /// The connection to the stream is being set up.
    Connecting,
    /// Connected; the subscription request is on its way.
    Subscribed,
    /// Waiting for the next event of the stream.
    Idle,
    /// An event arrived and its transfer is in flight.
    Dispatching,
    /// The stream is over, or could not be had.
    Closed,
}

/// What the runner of a dispatcher reports back to it.
#[derive(Debug, PartialEq, Eq)]
pub enum DispatcherEvent {
    /// The stream's transport is connected and authenticated.
    Connected,
    /// The connection could not be made.
    ConnectFailed { error: String },
    /// The subscription request was taken.
    Acknowledged,
    /// The subscription request was refused.
    SubscribeFailed { error: String },
    /// The stream delivered an event. What the event holds is of no concern.
    EventArrived,
    /// The stream is over: it ended, or its transport failed for good.
    StreamEnded,
    /// The transfer in flight got on: what the ledger node just did.
    Transfer { event: TransferEvent },
}

/// A [`DispatcherEvent`] as a value of the model.
pub enum DispatcherEventView {
    Connected,
    ConnectFailed { error: Seq<char> },
    Acknowledged,
    SubscribeFailed { error: Seq<char> },
    EventArrived,
    StreamEnded,
    Transfer { event: TransferEventView },
}

impl View for DispatcherEvent {
    type V = DispatcherEventView;

    open spec fn view(&self) -> DispatcherEventView {
        match self {
            DispatcherEvent::Connected => DispatcherEventView::Connected,
            DispatcherEvent::ConnectFailed { error } => DispatcherEventView::ConnectFailed {
                error: error@,
            },
            DispatcherEvent::Acknowledged => DispatcherEventView::Acknowledged,
            DispatcherEvent::SubscribeFailed { error } => DispatcherEventView::SubscribeFailed {
                error: error@,
            },
            DispatcherEvent::EventArrived => DispatcherEventView::EventArrived,
            DispatcherEvent::StreamEnded => DispatcherEventView::StreamEnded,
            DispatcherEvent::Transfer { event } => DispatcherEventView::Transfer { event: event@ },
        }
    }
}

/// What the runner of a dispatcher is to do next.
#[derive(Debug, PartialEq, Eq)]
pub enum DispatcherAction {
    /// Send the subscription request for block-level events.
    Subscribe,
    /// Wait for the next event of the stream.
    AwaitEvent,
    /// Ask the ledger node for a sequencing token.
    FetchToken,
    /// Submit this signed transaction and wait for its confirmation.
    Submit { transaction: Transaction },
    /// Report this outcome, then wait for the next event of the stream.
    Report { outcome: TransferOutcome },
    /// Give up for good with this diagnostic: the stream could not be had.
    Abort { error: String },
    /// Stop: the stream is over.
    Exit,
}

/// A [`DispatcherAction`] as a value of the model.
pub enum DispatcherActionView {
    Subscribe,
    AwaitEvent,
    FetchToken,
    Submit { transaction: Transaction },
    Report { outcome: TransferOutcomeView },
    Abort { error: Seq<char> },
    Exit,
}

impl View for DispatcherAction {
    type V = DispatcherActionView;

    open spec fn view(&self) -> DispatcherActionView {
        match self {
            DispatcherAction::Subscribe => DispatcherActionView::Subscribe,
            DispatcherAction::AwaitEvent => DispatcherActionView::AwaitEvent,
            DispatcherAction::FetchToken => DispatcherActionView::FetchToken,
            DispatcherAction::Submit { transaction } => DispatcherActionView::Submit {
                transaction: *transaction,
            },
            DispatcherAction::Report { outcome } => DispatcherActionView::Report {
                outcome: outcome@,
            },
            DispatcherAction::Abort { error } => DispatcherActionView::Abort { error: error@ },
            DispatcherAction::Exit => DispatcherActionView::Exit,
        }
    }
}

/// The state of a dispatcher in the model: its phase, and in `Dispatching`
/// the transfer that is in flight.
pub enum DispatcherStateView {
    Connecting,
    Subscribed,
    Idle,
    Dispatching { task: TransferTaskView },
    Closed,
}

/// A [`Dispatcher`] as a value of the model.
pub struct DispatcherView {
    /// The transfer that every event triggers, prepared and not started.
    pub template: TransferTaskView,
    /// Where the dispatcher stands.
    pub state: DispatcherStateView,
}

enum DispatcherState {
    Connecting,
    Subscribed,
    Idle,
    Dispatching { task: TransferTask },
    Closed,
}

/// The reactive dispatcher: a subscription to the ledger's event stream and
/// the one fixed transfer that each event sets off.
pub struct Dispatcher {
    template: TransferTask,
    state: DispatcherState,
}

impl View for Dispatcher {
    type V = DispatcherView;

    closed spec fn view(&self) -> DispatcherView {
        DispatcherView {
            template: self.template@,
            state: match self.state {
                DispatcherState::Connecting => DispatcherStateView::Connecting,
                DispatcherState::Subscribed => DispatcherStateView::Subscribed,
                DispatcherState::Idle => DispatcherStateView::Idle,
                DispatcherState::Dispatching { task } => DispatcherStateView::Dispatching {
                    task: task@,
                },
                DispatcherState::Closed => DispatcherStateView::Closed,
            },
        }
    }
}

/// The phase of a state.
pub open spec fn phase_of(state: DispatcherStateView) -> DispatcherPhase {
    match state {
        DispatcherStateView::Connecting => DispatcherPhase::Connecting,
        DispatcherStateView::Subscribed => DispatcherPhase::Subscribed,
        DispatcherStateView::Idle => DispatcherPhase::Idle,
        DispatcherStateView::Dispatching { .. } => DispatcherPhase::Dispatching,
        DispatcherStateView::Closed => DispatcherPhase::Closed,
    }
}

/// The dispatcher in `state`, with its template unchanged, and the action
/// that goes with the move.
pub open spec fn moved(
    dispatcher: DispatcherView,
    state: DispatcherStateView,
    action: DispatcherActionView,
) -> Option<(DispatcherView, DispatcherActionView)> {
    Some((DispatcherView { template: dispatcher.template, state }, action))
}

/// What the dispatcher does with a step of the transfer in flight: the end of
/// the transfer is reported and the dispatcher is idle again, whether the
/// transfer succeeded or failed; any other action is passed on.
pub open spec fn after_transfer_step(
    dispatcher: DispatcherView,
    task: TransferTaskView,
    action: TransferActionView,
) -> Option<(DispatcherView, DispatcherActionView)> {
    match action {
        TransferActionView::Finish { outcome } => moved(
            dispatcher,
            DispatcherStateView::Idle,
            DispatcherActionView::Report { outcome },
        ),
        TransferActionView::Submit { transaction } => moved(
            dispatcher,
            DispatcherStateView::Dispatching { task },
            DispatcherActionView::Submit { transaction },
        ),
        TransferActionView::FetchToken => moved(
            dispatcher,
            DispatcherStateView::Dispatching { task },
            DispatcherActionView::FetchToken,
        ),
    }
}

/// The decisions of the dispatcher: its state after `event` arrived at clock
/// reading `now`, and what to do next. `None` where the event has no place in
/// the dispatcher's phase: the dispatcher has not taken it.
///
/// - `Connecting`: `Connected` leads to `Subscribed` and the subscription
///   request; `ConnectFailed` is fatal.
/// - `Subscribed`: `Acknowledged` leads to `Idle`; `SubscribeFailed` is fatal.
/// - `Idle`: `EventArrived` starts a fresh copy of the template and leads to
///   `Dispatching`; `StreamEnded` leads to `Closed`.
/// - `Dispatching`: only the transfer in flight is heard. Its end, good or
///   bad, is reported and leads back to `Idle`. What the stream has to say
///   meanwhile is not taken: it stays with the stream, which is read again
///   only when the dispatcher asks for the next event.
/// - `Closed`: nothing is heard.
pub open spec fn dispatcher_step(dispatcher: DispatcherView, event: DispatcherEventView, now: u128)
    -> Option<(DispatcherView, DispatcherActionView)> {
    match (dispatcher.state, event) {
        (DispatcherStateView::Connecting, DispatcherEventView::Connected) => moved(
            dispatcher,
            DispatcherStateView::Subscribed,
            DispatcherActionView::Subscribe,
        ),
        (DispatcherStateView::Connecting, DispatcherEventView::ConnectFailed { error }) => moved(
            dispatcher,
            DispatcherStateView::Closed,
            DispatcherActionView::Abort { error },
        ),
        (DispatcherStateView::Subscribed, DispatcherEventView::Acknowledged) => moved(
            dispatcher,
            DispatcherStateView::Idle,
            DispatcherActionView::AwaitEvent,
        ),
        (DispatcherStateView::Subscribed, DispatcherEventView::SubscribeFailed { error }) => moved(
            dispatcher,
            DispatcherStateView::Closed,
            DispatcherActionView::Abort { error },
        ),
        (DispatcherStateView::Idle, DispatcherEventView::EventArrived) => {
            match transfer_step(dispatcher.template, TransferEventView::Started, now) {
                Some((task, action)) => after_transfer_step(dispatcher, task, action),
                None => None,
            }
        },
        (DispatcherStateView::Idle, DispatcherEventView::StreamEnded) => moved(
            dispatcher,
            DispatcherStateView::Closed,
            DispatcherActionView::Exit,
        ),
        (DispatcherStateView::Dispatching { task }, DispatcherEventView::Transfer { event }) => {
            match transfer_step(task, event, now) {
                Some((next, action)) => after_transfer_step(dispatcher, next, action),
                None => None,
            }
        },
        _ => None,
    }
}

/// The dispatcher that has not connected yet.
pub open spec fn initial(template: TransferTaskView) -> DispatcherView {
    DispatcherView { template, state: DispatcherStateView::Connecting }
}

/// Passes on what a step of the transfer in flight asks for.
fn pass_on(template: TransferTask, task: TransferTask, action: TransferAction) -> (next: (
    Dispatcher,
    Option<DispatcherAction>,
))
    ensures
        next.1 is Some,
        after_transfer_step(initial(template@), task@, action@) == Some((next.0@, next.1->0@)),
{
    match action {
        TransferAction::Finish { outcome } => (
            Dispatcher { template, state: DispatcherState::Idle },
            Some(DispatcherAction::Report { outcome }),
        ),
        TransferAction::Submit { transaction } => (
            Dispatcher { template, state: DispatcherState::Dispatching { task } },
            Some(DispatcherAction::Submit { transaction }),
        ),
        TransferAction::FetchToken => (
            Dispatcher { template, state: DispatcherState::Dispatching { task } },
            Some(DispatcherAction::FetchToken),
        ),
    }
}

impl Dispatcher {
    /// A dispatcher for the fixed transfer `template`, not yet connected.
    /// A malformed template is a fault in the configuration and is refused.
    pub fn new(template: &TransferRequest) -> (made: Result<Dispatcher, RequestError>)
        ensures
            match request_error(template@) {
                Some(error) => made matches Err(found) && found == error,
                None => made matches Ok(dispatcher) && dispatcher@ == initial(
                    prepared(template@),
                ),
            },
    {
        match TransferTask::prepare(template) {
            Ok(task) => Ok(Dispatcher::with_template(task)),
            Err(error) => Err(error),
        }
    }

    /// A dispatcher, not yet connected, that sets off a copy of `template`
    /// for every event. The template is meant to be a prepared task that has
    /// not been started: a copy of any other task takes no start.
    pub fn with_template(template: TransferTask) -> (dispatcher: Dispatcher)
        ensures
            dispatcher@ == initial(template@),
    {
        Dispatcher { template, state: DispatcherState::Connecting }
    }

    /// Where the dispatcher stands.
    pub fn phase(&self) -> (phase: DispatcherPhase)
        ensures
            phase == phase_of(self@.state),
    {
        match &self.state {
            DispatcherState::Connecting => DispatcherPhase::Connecting,
            DispatcherState::Subscribed => DispatcherPhase::Subscribed,
            DispatcherState::Idle => DispatcherPhase::Idle,
            DispatcherState::Dispatching { .. } => DispatcherPhase::Dispatching,
            DispatcherState::Closed => DispatcherPhase::Closed,
        }
    }

    /// Takes in what just happened, at clock reading `now`, and hands back
    /// the dispatcher in its next state with what to do next. An event that
    /// has no place in the dispatcher's phase leaves it as it is and is
    /// answered with `None`.
    pub fn step(self, event: DispatcherEvent, now: u128) -> (next: (
        Dispatcher,
        Option<DispatcherAction>,
    ))
        ensures
            match dispatcher_step(self@, event@, now) {
                Some((state, act)) => {
                    &&& next.0@ == state
                    &&& next.1 matches Some(given)
                    &&& given@ == act
                },
                None => next.0@ == self@ && next.1 is None,
            },
    {
        let Dispatcher { template, state } = self;
        match state {
            DispatcherState::Connecting => match event {
                DispatcherEvent::Connected => (
                    Dispatcher { template, state: DispatcherState::Subscribed },
                    Some(DispatcherAction::Subscribe),
                ),
                DispatcherEvent::ConnectFailed { error } => (
                    Dispatcher { template, state: DispatcherState::Closed },
                    Some(DispatcherAction::Abort { error }),
                ),
                _ => (Dispatcher { template, state: DispatcherState::Connecting }, None),
            },
            DispatcherState::Subscribed => match event {
                DispatcherEvent::Acknowledged => (
                    Dispatcher { template, state: DispatcherState::Idle },
                    Some(DispatcherAction::AwaitEvent),
                ),
                DispatcherEvent::SubscribeFailed { error } => (
                    Dispatcher { template, state: DispatcherState::Closed },
                    Some(DispatcherAction::Abort { error }),
                ),
                _ => (Dispatcher { template, state: DispatcherState::Subscribed }, None),
            },
            DispatcherState::Idle => match event {
                DispatcherEvent::EventArrived => {
                    let mut task = template.duplicate();
                    match task.step(TransferEvent::Started, now) {
                        Some(action) => pass_on(template, task, action),
                        None => (Dispatcher { template, state: DispatcherState::Idle }, None),
                    }
                },
                DispatcherEvent::StreamEnded => (
                    Dispatcher { template, state: DispatcherState::Closed },
                    Some(DispatcherAction::Exit),
                ),
                _ => (Dispatcher { template, state: DispatcherState::Idle }, None),
            },
            DispatcherState::Dispatching { task } => match event {
                DispatcherEvent::Transfer { event } => {
                    let mut task = task;
                    match task.step(event, now) {
                        Some(action) => pass_on(template, task, action),
                        None => (
                            Dispatcher { template, state: DispatcherState::Dispatching { task } },
                            None,
                        ),
                    }
                },
                _ => (Dispatcher { template, state: DispatcherState::Dispatching { task } }, None),
            },
            DispatcherState::Closed => (
                Dispatcher { template, state: DispatcherState::Closed },
                None,
            ),
        }
    }
}

/// One if a transfer is in flight, zero if not.
pub open spec fn in_flight(dispatcher: DispatcherView) -> nat {
    if dispatcher.state is Dispatching {
        1
    } else {
        0
    }
}

/// The dispatcher after `event`: moved on if the event has a place, and as it
/// was if not.
pub open spec fn after(dispatcher: DispatcherView, event: DispatcherEventView, now: u128)
    -> DispatcherView {
    match dispatcher_step(dispatcher, event, now) {
        Some((next, _)) => next,
        None => dispatcher,
    }
}

/// The dispatcher after a run of events, each with its clock reading, fed
/// first to last.
pub open spec fn after_all(dispatcher: DispatcherView, events: Seq<(DispatcherEventView, u128)>)
    -> DispatcherView
    decreases events.len(),
{
    if events.len() == 0 {
        dispatcher
    } else {
        after(after_all(dispatcher, events.drop_last()), events.last().0, events.last().1)
    }
}

/// Whether `event` sets off a transfer: the dispatcher had none in flight and
/// has one after it.
pub open spec fn begins_dispatch(dispatcher: DispatcherView, event: DispatcherEventView, now: u128)
    -> bool {
    !(dispatcher.state is Dispatching) && after(dispatcher, event, now).state is Dispatching
}

/// Whether `event` makes the dispatcher report a transfer's outcome.
pub open spec fn reports_outcome(dispatcher: DispatcherView, event: DispatcherEventView, now: u128)
    -> bool {
    dispatcher_step(dispatcher, event, now) matches Some((_, action)) && action is Report
}

/// How many transfers a run of events sets off.
pub open spec fn dispatches_begun(
    dispatcher: DispatcherView,
    events: Seq<(DispatcherEventView, u128)>,
) -> nat
    decreases events.len(),
{
    if events.len() == 0 {
        0
    } else {
        dispatches_begun(dispatcher, events.drop_last()) + if begins_dispatch(
            after_all(dispatcher, events.drop_last()),
            events.last().0,
            events.last().1,
        ) {
            1nat
        } else {
            0nat
        }
    }
}

/// How many outcomes are reported during a run of events.
pub open spec fn outcomes_reported(
    dispatcher: DispatcherView,
    events: Seq<(DispatcherEventView, u128)>,
) -> nat
    decreases events.len(),
{
    if events.len() == 0 {
        0
    } else {
        outcomes_reported(dispatcher, events.drop_last()) + if reports_outcome(
            after_all(dispatcher, events.drop_last()),
            events.last().0,
            events.last().1,
        ) {
            1nat
        } else {
            0nat
        }
    }
}

/// A transfer is set off only by an event of the stream, and only while the
/// dispatcher is idle.
pub proof fn dispatch_answers_an_event(
    dispatcher: DispatcherView,
    event: DispatcherEventView,
    now: u128,
)
    requires
        begins_dispatch(dispatcher, event, now),
    ensures
        dispatcher.state is Idle,
        event is EventArrived,
{
}

/// While a transfer is in flight nothing but that transfer is heard: a
/// further event of the stream, or its end, changes nothing and starts
/// nothing.
pub proof fn stream_waits_for_transfer(
    dispatcher: DispatcherView,
    event: DispatcherEventView,
    now: u128,
)
    requires
        dispatcher.state is Dispatching,
        !(event is Transfer),
    ensures
        dispatcher_step(dispatcher, event, now) is None,
{
}

/// The end of a transfer does not close the subscription: the outcome is
/// reported, failure or not, and the dispatcher waits for the next event.
pub proof fn report_returns_to_idle(
    dispatcher: DispatcherView,
    event: DispatcherEventView,
    now: u128,
)
    requires
        reports_outcome(dispatcher, event, now),
    ensures
        dispatcher.state is Dispatching,
        after(dispatcher, event, now).state is Idle,
{
    match (dispatcher.state, event) {
        (DispatcherStateView::Idle, DispatcherEventView::EventArrived) => {
            // starting a transfer never finishes it
            assert(transfer_step(dispatcher.template, TransferEventView::Started, now) matches Some(
                (_, action),
            ) ==> action is FetchToken);
        },
        _ => {},
    }
}

/// Once subscribed, the dispatcher stays open until the stream is over:
/// nothing but the end of the stream closes it, and no failed transfer does.
pub proof fn subscription_ends_with_the_stream(
    dispatcher: DispatcherView,
    event: DispatcherEventView,
    now: u128,
)
    requires
        dispatcher.state is Idle || dispatcher.state is Dispatching,
        after(dispatcher, event, now).state is Closed,
    ensures
        dispatcher.state is Idle,
        event is StreamEnded,
{
    match (dispatcher.state, event) {
        (DispatcherStateView::Idle, DispatcherEventView::EventArrived) => {
            assert(transfer_step(dispatcher.template, TransferEventView::Started, now) matches Some(
                (_, action),
            ) ==> action is FetchToken);
        },
        _ => {},
    }
}

/// One event moves the count of transfers in flight as it should: up by one
/// where it sets off a transfer, down by one where an outcome is reported.
proof fn lemma_in_flight_step(dispatcher: DispatcherView, event: DispatcherEventView, now: u128)
    ensures
        in_flight(dispatcher) + (if begins_dispatch(dispatcher, event, now) {
            1nat
        } else {
            0nat
        }) == in_flight(after(dispatcher, event, now)) + (if reports_outcome(
            dispatcher,
            event,
            now,
        ) {
            1nat
        } else {
            0nat
        }),
{
    match (dispatcher.state, event) {
        (DispatcherStateView::Idle, DispatcherEventView::EventArrived) => {
            assert(transfer_step(dispatcher.template, TransferEventView::Started, now) matches Some(
                (_, action),
            ) ==> action is FetchToken);
        },
        _ => {},
    }
}

/// Sequential dispatch: over any run of events, every transfer set off has
/// had its outcome reported, but for the one that is in flight at the end.
/// So at most one transfer is in flight at any time, and the transfer of a
/// later event begins only after the outcome of every earlier one.
pub proof fn dispatch_is_sequential(
    dispatcher: DispatcherView,
    events: Seq<(DispatcherEventView, u128)>,
)
    ensures
        in_flight(dispatcher) + dispatches_begun(dispatcher, events) == outcomes_reported(
            dispatcher,
            events,
        ) + in_flight(after_all(dispatcher, events)),
        in_flight(after_all(dispatcher, events)) <= 1,
    decreases events.len(),
{
    if events.len() > 0 {
        dispatch_is_sequential(dispatcher, events.drop_last());
        lemma_in_flight_step(
            after_all(dispatcher, events.drop_last()),
            events.last().0,
            events.last().1,
        );
    }
}

} // verus!
