//! Transfers for a batch of requests.
//!
//! [`plan_transfers`] turns the requests into one task each, in the order of
//! the requests, or refuses the whole batch before any transfer is started.
//! The tasks then run concurrently, each driven on its own; whoever drives
//! them notes each outcome as it comes in, with the position of its request.
//! [`perform_transactions`] files the outcomes in an [`OrderedJoin`] and pairs
//! every request with the outcome of its own task. A task that ended without
//! reporting counts as failed and touches no other result.

use crate::join::{
    arrivals, join_ignores_completion_order, join_is_positional, join_isolates_units,
    record_all, record_all_extends, record_all_keeps_length, reports_in_range, reports_once,
    unfilled, OrderedJoin,
};
use crate::ledger::credential_address;
use crate::transfer::{
    prepared, request_error, source_address, RequestError, TransferOutcome, TransferOutcomeView,
    TransferRequest, TransferRequestView, TransferResult, TransferResultView, TransferTask,
};
use vstd::prelude::*;
use vstd::string::StringExecFns;

verus! {

/// Why a batch of transfers was refused: the first request that is
/// malformed, and what is wrong with it.
#[derive(Clone, Copy, Debug, PartialEq, Eq)]
pub struct PlanError {
    /// The position of the request in the batch.
    pub index: usize,
    /// What is wrong with it.
    pub reason: RequestError,
}

/// Prepares one task per request, in the order of the requests.
///
/// A malformed request is a fault in the configuration: the batch is refused
/// as a whole, naming the first such request, and nothing is started.
pub fn plan_transfers(requests: &Vec<TransferRequest>) -> (plan: Result<
    Vec<TransferTask>,
    PlanError,
>)
    ensures
        plan is Ok <==> forall|i: int|
            0 <= i < requests@.len() ==> request_error((#[trigger] requests@[i])@) is None,
        plan matches Ok(tasks) ==> tasks@.len() == requests@.len() && forall|i: int|
            0 <= i < tasks@.len() ==> (#[trigger] tasks@[i])@ == prepared(requests@[i]@),
        plan matches Err(error) ==> error.index < requests@.len() && request_error(
            requests@[error.index as int]@,
        ) == Some(error.reason) && forall|j: int|
            0 <= j < error.index ==> request_error((#[trigger] requests@[j])@) is None,
{
    let mut tasks: Vec<TransferTask> = Vec::new();
    let mut next: usize = 0;
    while next < requests.len()
        invariant
            next <= requests@.len(),
            tasks@.len() == next,
            forall|i: int| 0 <= i < next ==> request_error((#[trigger] requests@[i])@) is None,
            forall|i: int| 0 <= i < next ==> (#[trigger] tasks@[i])@ == prepared(requests@[i]@),
        decreases requests@.len() - next,
    {
        match TransferTask::prepare(&requests[next]) {
            Ok(task) => {
                tasks.push(task);
            },
            Err(reason) => {
                return Err(PlanError { index: next, reason });
            },
        }
        next = next + 1;
    }
    Ok(tasks)
}

/// The error text of a transfer whose task ended without an outcome.
pub open spec fn lost_error() -> Seq<char> {
    "the transfer ended without an outcome"@
}

/// What is reported for a request whose task ended without an outcome, given
/// the address that its credential signs for: a failure, with no time on the
/// clock. The source is that address, and empty where there is none.
pub open spec fn lost_outcome_from(request: TransferRequestView, source: Option<Seq<char>>)
    -> TransferOutcomeView {
    TransferOutcomeView {
        source: match source {
            Some(address) => address,
            None => Seq::<char>::empty(),
        },
        destination: request.destination,
        amount: request.amount,
        result: TransferResultView::Failure { error: lost_error() },
        elapsed_nanos: 0,
    }
}

/// What is reported for a request whose task ended without an outcome.
pub open spec fn lost_outcome(request: TransferRequestView) -> TransferOutcomeView {
    lost_outcome_from(request, credential_address(request.credential))
}

/// The text of an optional string.
pub open spec fn text_of(text: Option<String>) -> Option<Seq<char>> {
    match text {
        Some(text) => Some(text@),
        None => None,
    }
}

/// The outcome reported for the request at position `index`: the one in the
/// join slot at that position, and [`lost_outcome`] where the slot is missing
/// or empty.
pub open spec fn outcome_at(
    request: TransferRequestView,
    outcomes: Seq<Option<TransferOutcome>>,
    index: int,
) -> TransferOutcomeView {
    if 0 <= index < outcomes.len() && outcomes[index] is Some {
        outcomes[index]->0@
    } else {
        lost_outcome(request)
    }
}

/// The results of a batch: one per request, in the order of the requests,
/// each taken from the slot at its own position.
pub open spec fn transfer_results(
    requests: Seq<TransferRequest>,
    outcomes: Seq<Option<TransferOutcome>>,
) -> Seq<TransferOutcomeView> {
    Seq::new(requests.len(), |i: int| outcome_at(requests[i]@, outcomes, i))
}

/// The failure reported for a request whose task ended without an outcome.
fn lost(request: &TransferRequest) -> (outcome: TransferOutcome)
    ensures
        outcome@ == lost_outcome(request@),
{
    lost_transfer(request, source_address(request.credential.as_str()))
}

/// The failure reported for a request whose task ended without an outcome,
/// given the address that the request's credential signs for, if any.
pub fn lost_transfer(request: &TransferRequest, source: Option<String>) -> (outcome:
    TransferOutcome)
    ensures
        outcome@ == lost_outcome_from(request@, text_of(source)),
{
    let source = match source {
        Some(address) => address,
        None => String::new(),
    };
    TransferOutcome {
        source,
        destination: request.destination.clone(),
        amount: request.amount,
        result: TransferResult::Failure {
            error: String::from_str("the transfer ended without an outcome"),
        },
        elapsed_nanos: 0,
    }
}

/// The results of a batch of transfers, one per request and in the order of
/// the requests.
///
/// `completions` are the outcomes of the tasks in the order in which the
/// tasks ended, each with the position of its request. That order has no
/// bearing on the result: every outcome is filed under its request. Of two
/// outcomes for one request the first counts, and an outcome for no request
/// of the batch is dropped.
pub fn perform_transactions(
    requests: &Vec<TransferRequest>,
    completions: &Vec<(usize, TransferOutcome)>,
) -> (results: Vec<TransferOutcome>)
    ensures
        results@.len() == requests@.len(),
        forall|i: int|
            0 <= i < results@.len() ==> (#[trigger] results@[i])@ == transfer_results(
                requests@,
                record_all(unfilled(requests@.len()), arrivals(completions@)),
            )[i],
{
    let mut join: OrderedJoin<TransferOutcome> = OrderedJoin::new(requests.len());
    let mut filed: usize = 0;
    while filed < completions.len()
        invariant
            filed <= completions@.len(),
            join@ == record_all(
                unfilled(requests@.len()),
                arrivals(completions@.take(filed as int)),
            ),
        decreases completions@.len() - filed,
    {
        proof {
            record_all_extends(
                unfilled::<TransferOutcome>(requests@.len()),
                completions@,
                filed as int,
            );
        }
        join.complete(completions[filed].0, completions[filed].1.duplicate());
        filed = filed + 1;
    }
    assert(completions@.take(filed as int) =~= completions@);
    outcomes_from_slots(requests, &join.into_slots())
}

/// Assembles the results of a batch from the joined outcomes.
///
/// `outcomes` holds, at the position of each request, the outcome of that
/// request's task, if it reported one. The result has exactly one entry per
/// request, in the order of `requests`.
pub fn outcomes_from_slots(
    requests: &Vec<TransferRequest>,
    outcomes: &Vec<Option<TransferOutcome>>,
) -> (results: Vec<TransferOutcome>)
    ensures
        results@.len() == requests@.len(),
        forall|i: int|
            0 <= i < results@.len() ==> (#[trigger] results@[i])@ == transfer_results(
                requests@,
                outcomes@,
            )[i],
{
    let mut results: Vec<TransferOutcome> = Vec::new();
    let mut next: usize = 0;
    while next < requests.len()
        invariant
            next <= requests@.len(),
            results@.len() == next,
            forall|i: int|
                0 <= i < next ==> (#[trigger] results@[i])@ == transfer_results(
                    requests@,
                    outcomes@,
                )[i],
        decreases requests@.len() - next,
    {
        let outcome = if next < outcomes.len() {
            match &outcomes[next] {
                Some(outcome) => outcome.duplicate(),
                None => lost(&requests[next]),
            }
        } else {
            lost(&requests[next])
        };
        results.push(outcome);
        next = next + 1;
    }
    results
}

/// Order preservation: a batch has exactly one result per request, and the
/// result at each position is the outcome that was filed at that position.
pub proof fn transfers_keep_input_order(
    requests: Seq<TransferRequest>,
    outcomes: Seq<Option<TransferOutcome>>,
)
    ensures
        transfer_results(requests, outcomes).len() == requests.len(),
        forall|i: int|
            0 <= i < requests.len() && i < outcomes.len() && outcomes[i] is Some
                ==> #[trigger] transfer_results(requests, outcomes)[i] == outcomes[i]->0@,
        forall|i: int|
            0 <= i < requests.len() && !(i < outcomes.len() && outcomes[i] is Some) ==> (
            #[trigger] transfer_results(requests, outcomes)[i]).result is Failure,
{
}

/// Completion timing does not show: when every task reports once, in
/// whatever order the transfers end, the result at the position of each
/// request is the outcome of that request's own task.
pub proof fn transfers_follow_their_tasks(
    requests: Seq<TransferRequest>,
    completions: Seq<(int, TransferOutcome)>,
)
    requires
        reports_in_range(completions, requests.len()),
        reports_once(completions),
    ensures
        forall|k: int|
            0 <= k < completions.len() ==> transfer_results(
                requests,
                record_all(unfilled(requests.len()), completions),
            )[(#[trigger] completions[k]).0] == completions[k].1@,
{
    join_is_positional(requests.len(), completions);
}

/// Two runs of a batch in which the same tasks end with the same outcomes,
/// in different orders, give the same results.
pub proof fn transfers_ignore_completion_order(
    requests: Seq<TransferRequest>,
    first: Seq<(int, TransferOutcome)>,
    second: Seq<(int, TransferOutcome)>,
)
    requires
        reports_in_range(first, requests.len()),
        reports_in_range(second, requests.len()),
        reports_once(first),
        reports_once(second),
        forall|k: int| 0 <= k < first.len() ==> second.contains(#[trigger] first[k]),
        forall|k: int| 0 <= k < second.len() ==> first.contains(#[trigger] second[k]),
    ensures
        transfer_results(requests, record_all(unfilled(requests.len()), first))
            == transfer_results(requests, record_all(unfilled(requests.len()), second)),
{
    join_ignores_completion_order(requests.len(), first, second);
}

/// Failure isolation over a run: had one transfer of a run ended in a
/// failure instead, the result of that transfer would be the failure and
/// every other result would be as it is.
pub proof fn transfer_failure_stays_with_its_task(
    requests: Seq<TransferRequest>,
    completions: Seq<(int, TransferOutcome)>,
    failing: int,
    failure: TransferOutcome,
)
    requires
        reports_in_range(completions, requests.len()),
        reports_once(completions),
        0 <= failing < completions.len(),
        failure@.result is Failure,
    ensures
        ({
            let unit = completions[failing].0;
            let before = transfer_results(
                requests,
                record_all(unfilled(requests.len()), completions),
            );
            let after = transfer_results(
                requests,
                record_all(unfilled(requests.len()), completions.update(failing, (unit, failure))),
            );
            &&& after.len() == requests.len()
            &&& after[unit] == failure@
            &&& forall|i: int|
                0 <= i < requests.len() && i != unit ==> #[trigger] after[i] == before[i]
        }),
{
    join_isolates_units(requests.len(), completions, failing, failure);
    record_all_keeps_length(unfilled::<TransferOutcome>(requests.len()), completions);
}

/// Failure isolation: when the transfer at one position ends in a failure
/// instead, that position reports the failure and every other result stays
/// as it was.
pub proof fn transfer_failure_is_isolated(
    requests: Seq<TransferRequest>,
    outcomes: Seq<Option<TransferOutcome>>,
    failing: int,
    failure: TransferOutcome,
)
    requires
        0 <= failing < requests.len(),
        failing < outcomes.len(),
        failure@.result is Failure,
    ensures
        transfer_results(requests, outcomes.update(failing, Some(failure))).len()
            == requests.len(),
        transfer_results(requests, outcomes.update(failing, Some(failure)))[failing]
            == failure@,
        forall|i: int|
            0 <= i < requests.len() && i != failing ==> #[trigger] transfer_results(
                requests,
                outcomes.update(failing, Some(failure)),
            )[i] == transfer_results(requests, outcomes)[i],
{
}

/// An empty batch is told apart from one in which every transfer failed: the
/// results are empty exactly when no request was given.
pub proof fn empty_transfer_batch_is_distinct(
    requests: Seq<TransferRequest>,
    outcomes: Seq<Option<TransferOutcome>>,
)
    ensures
        transfer_results(requests, outcomes).len() == 0 <==> requests.len() == 0,
{
}

} // verus!
