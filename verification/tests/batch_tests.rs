use ledger_orchestration::batch::{
    lost_transfer, outcomes_from_slots, perform_transactions, plan_transfers, PlanError,
};
use ledger_orchestration::join::OrderedJoin;
use ledger_orchestration::report::{transfer_line, transfer_report};
use ledger_orchestration::transfer::{
    RequestError, TransferAction, TransferEvent, TransferOutcome, TransferPhase, TransferRequest,
    TransferResult,
};
use solana_sdk::signature::Keypair;
use solana_sdk::signer::Signer;

const MILLI: u128 = 1_000_000;

fn key(seed: u8) -> Keypair {
    Keypair::new_from_array([seed; 32])
}

fn request(from: u8, to: u8, amount: u64) -> TransferRequest {
    TransferRequest {
        credential: key(from).to_base58_string(),
        destination: key(to).pubkey().to_string(),
        amount,
    }
}

fn finish(action: Option<TransferAction>) -> TransferOutcome {
    match action {
        Some(TransferAction::Finish { outcome }) => outcome,
        _ => panic!("the task did not finish"),
    }
}

#[test]
fn a_plan_has_one_ready_task_per_request_in_order() {
    let requests = vec![request(1, 2, 10), request(3, 4, 20), request(1, 4, 30)];
    let tasks = plan_transfers(&requests).ok().expect("all requests are well formed");
    assert_eq!(tasks.len(), 3);
    for (task, request) in tasks.iter().zip(requests.iter()) {
        assert_eq!(task.phase(), TransferPhase::Ready);
        assert_eq!(task.destination(), request.destination);
        assert_eq!(task.amount(), request.amount);
    }
    assert_eq!(tasks[0].source(), key(1).pubkey().to_string());
    assert_eq!(tasks[1].source(), key(3).pubkey().to_string());
    assert_eq!(tasks[2].source(), key(1).pubkey().to_string());
}

#[test]
fn an_empty_plan_is_fine() {
    let tasks = plan_transfers(&Vec::new()).ok().expect("nothing can be malformed");
    assert!(tasks.is_empty());
}

#[test]
fn a_plan_is_refused_at_the_first_malformed_request() {
    let mut broken_destination = request(1, 2, 10);
    broken_destination.destination = "BAD".to_string();
    let mut broken_credential = request(1, 2, 10);
    broken_credential.credential = "BAD".to_string();
    let requests = vec![request(1, 2, 10), broken_destination, broken_credential];
    assert_eq!(
        plan_transfers(&requests).err(),
        Some(PlanError { index: 1, reason: RequestError::MalformedDestination })
    );
    let mut credential_first = request(5, 6, 1);
    credential_first.credential = "BAD".to_string();
    assert_eq!(
        plan_transfers(&vec![credential_first, request(1, 2, 10)]).err(),
        Some(PlanError { index: 0, reason: RequestError::MalformedCredential })
    );
}

#[test]
fn two_transfers_keep_input_order_though_the_second_ends_first() {
    let requests = vec![request(1, 2, 1_000), request(3, 4, 2_000)];
    let mut tasks = plan_transfers(&requests).ok().expect("all requests are well formed");
    let mut join: OrderedJoin<TransferOutcome> = OrderedJoin::new(tasks.len());

    let mut second = tasks.pop().expect("two tasks");
    let mut first = tasks.pop().expect("two tasks");
    assert_eq!(first.step(TransferEvent::Started, 0), Some(TransferAction::FetchToken));
    assert_eq!(second.step(TransferEvent::Started, 0), Some(TransferAction::FetchToken));
    first.step(TransferEvent::TokenFetched { token: [1u8; 32] }, 10 * MILLI);
    second.step(TransferEvent::TokenFetched { token: [1u8; 32] }, 10 * MILLI);
    let late = second.step(
        TransferEvent::Rejected { error: "insufficient funds".to_string() },
        30 * MILLI,
    );
    assert!(join.complete(1, finish(late)));
    let early = first.step(
        TransferEvent::Confirmed { transaction_id: "sig1".to_string() },
        120 * MILLI,
    );
    assert!(join.complete(0, finish(early)));

    let results = outcomes_from_slots(&requests, &join.into_slots());
    assert_eq!(results.len(), 2);
    assert_eq!(
        results[0],
        TransferOutcome {
            source: key(1).pubkey().to_string(),
            destination: key(2).pubkey().to_string(),
            amount: 1_000,
            result: TransferResult::Success { transaction_id: "sig1".to_string() },
            elapsed_nanos: 120 * MILLI,
        }
    );
    assert_eq!(
        results[1],
        TransferOutcome {
            source: key(3).pubkey().to_string(),
            destination: key(4).pubkey().to_string(),
            amount: 2_000,
            result: TransferResult::Failure { error: "insufficient funds".to_string() },
            elapsed_nanos: 30 * MILLI,
        }
    );
    let lines = transfer_report(&results);
    assert_eq!(
        lines,
        vec![
            format!(
                "Success: {} -> {} (1000) in 120ms, id: sig1",
                key(1).pubkey(),
                key(2).pubkey()
            ),
            format!(
                "Error: {} -> {} (2000) in 30ms, details: insufficient funds",
                key(3).pubkey(),
                key(4).pubkey()
            ),
        ]
    );
}

#[test]
fn two_transfers_reported_as_they_end() {
    let requests = vec![request(1, 2, 1_000), request(3, 4, 2_000)];
    let first = TransferOutcome {
        source: key(1).pubkey().to_string(),
        destination: key(2).pubkey().to_string(),
        amount: 1_000,
        result: TransferResult::Success { transaction_id: "sig1".to_string() },
        elapsed_nanos: 120 * MILLI,
    };
    let second = TransferOutcome {
        source: key(3).pubkey().to_string(),
        destination: key(4).pubkey().to_string(),
        amount: 2_000,
        result: TransferResult::Failure { error: "insufficient funds".to_string() },
        elapsed_nanos: 30 * MILLI,
    };
    let as_they_ended = vec![(1, second.duplicate()), (0, first.duplicate())];
    let results = perform_transactions(&requests, &as_they_ended);
    assert_eq!(results, vec![first.duplicate(), second.duplicate()]);
    let in_order = vec![(0, first.duplicate()), (1, second.duplicate())];
    assert_eq!(perform_transactions(&requests, &in_order), results);
}

#[test]
fn the_first_outcome_for_a_request_counts_and_strays_are_dropped() {
    let requests = vec![request(1, 2, 10)];
    let outcome = |id: &str| TransferOutcome {
        source: key(1).pubkey().to_string(),
        destination: key(2).pubkey().to_string(),
        amount: 10,
        result: TransferResult::Success { transaction_id: id.to_string() },
        elapsed_nanos: 1,
    };
    let completions = vec![(3, outcome("stray")), (0, outcome("first")), (0, outcome("second"))];
    assert_eq!(perform_transactions(&requests, &completions), vec![outcome("first")]);
}

#[test]
fn no_requests_give_no_outcomes_and_unanswered_requests_are_failures() {
    assert!(perform_transactions(&Vec::new(), &Vec::new()).is_empty());
    let results = perform_transactions(&vec![request(1, 2, 10)], &Vec::new());
    assert_eq!(results.len(), 1);
    assert_eq!(results[0].source, key(1).pubkey().to_string());
    assert_eq!(
        results[0].result,
        TransferResult::Failure { error: "the transfer ended without an outcome".to_string() }
    );
    assert_eq!(results[0].elapsed_nanos, 0);
}

#[test]
fn one_failing_transfer_leaves_the_others_untouched() {
    let requests = vec![request(1, 2, 1), request(3, 4, 2), request(5, 6, 3)];
    let good = |position: usize| TransferOutcome {
        source: key(1 + 2 * position as u8).pubkey().to_string(),
        destination: key(2 + 2 * position as u8).pubkey().to_string(),
        amount: 1 + position as u64,
        result: TransferResult::Success { transaction_id: format!("sig{}", position) },
        elapsed_nanos: 5,
    };
    for failing in 0..requests.len() {
        let mut outcomes: Vec<Option<TransferOutcome>> =
            (0..requests.len()).map(|position| Some(good(position))).collect();
        let mut failed = good(failing);
        failed.result = TransferResult::Failure { error: "injected".to_string() };
        outcomes[failing] = Some(failed.duplicate());
        let results = outcomes_from_slots(&requests, &outcomes);
        assert_eq!(results.len(), requests.len());
        for position in 0..requests.len() {
            if position == failing {
                assert_eq!(results[position], failed);
            } else {
                assert_eq!(results[position], good(position));
            }
        }
    }
}

#[test]
fn a_task_that_ended_without_an_outcome_is_reported_as_failed() {
    let requests = vec![request(1, 2, 10), request(3, 4, 20)];
    let kept = TransferOutcome {
        source: key(3).pubkey().to_string(),
        destination: key(4).pubkey().to_string(),
        amount: 20,
        result: TransferResult::Success { transaction_id: "sig".to_string() },
        elapsed_nanos: 9,
    };
    let results = outcomes_from_slots(&requests, &vec![None, Some(kept.duplicate())]);
    assert_eq!(
        results[0],
        TransferOutcome {
            source: key(1).pubkey().to_string(),
            destination: key(2).pubkey().to_string(),
            amount: 10,
            result: TransferResult::Failure {
                error: "the transfer ended without an outcome".to_string()
            },
            elapsed_nanos: 0,
        }
    );
    assert_eq!(results[1], kept);
    let short = outcomes_from_slots(&requests, &Vec::new());
    assert_eq!(short.len(), 2);
    assert_eq!(short[0], results[0]);
    assert!(matches!(short[1].result, TransferResult::Failure { .. }));
}

#[test]
fn a_lost_outcome_of_a_malformed_request_has_an_empty_source() {
    let mut broken = request(1, 2, 10);
    broken.credential = "BAD".to_string();
    let results = outcomes_from_slots(&vec![broken], &vec![None]);
    assert_eq!(results[0].source, "");
    assert_eq!(results[0].destination, key(2).pubkey().to_string());
    assert!(matches!(results[0].result, TransferResult::Failure { .. }));
}

#[test]
fn an_empty_batch_of_transfers_gives_no_results() {
    let results = outcomes_from_slots(&Vec::new(), &Vec::new());
    assert!(results.is_empty());
    assert!(transfer_report(&results).is_empty());
}

#[test]
fn the_transfer_line_of_a_success() {
    let outcome = TransferOutcome {
        source: "SRC".to_string(),
        destination: "DST".to_string(),
        amount: 1_500,
        result: TransferResult::Success { transaction_id: "sig1".to_string() },
        elapsed_nanos: 120 * MILLI,
    };
    assert_eq!(transfer_line(&outcome), "Success: SRC -> DST (1500) in 120ms, id: sig1");
}

#[test]
fn the_transfer_line_of_a_failure() {
    let outcome = TransferOutcome {
        source: "SRC".to_string(),
        destination: "DST".to_string(),
        amount: 0,
        result: TransferResult::Failure { error: "insufficient funds".to_string() },
        elapsed_nanos: 1_500_000_000,
    };
    assert_eq!(
        transfer_line(&outcome),
        "Error: SRC -> DST (0) in 1.5s, details: insufficient funds"
    );
}

#[test]
fn the_same_outcome_always_gives_the_same_transfer_line() {
    let make = || TransferOutcome {
        source: String::from("SR") + "C",
        destination: "DST".to_string(),
        amount: 7,
        result: TransferResult::Success { transaction_id: "sig".to_string() },
        elapsed_nanos: 30 * MILLI,
    };
    let first = make();
    assert_eq!(transfer_line(&first), transfer_line(&first));
    assert_eq!(transfer_line(&first), transfer_line(&make()));
    assert_eq!(transfer_line(&first), transfer_line(&first.duplicate()));
}

#[test]
fn a_lost_transfer_is_a_failure_with_no_time_on_the_clock() {
    let with_source = lost_transfer(&request(1, 2, 10), Some("SRC".to_string()));
    assert_eq!(
        with_source,
        TransferOutcome {
            source: "SRC".to_string(),
            destination: key(2).pubkey().to_string(),
            amount: 10,
            result: TransferResult::Failure {
                error: "the transfer ended without an outcome".to_string()
            },
            elapsed_nanos: 0,
        }
    );
    let without_source = lost_transfer(&request(1, 2, 10), None);
    assert_eq!(without_source.source, "");
    assert_eq!(without_source.destination, with_source.destination);
    assert_eq!(without_source.result, with_source.result);
}
