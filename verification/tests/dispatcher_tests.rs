use ledger_orchestration::dispatcher::{
    Dispatcher, DispatcherAction, DispatcherEvent, DispatcherPhase,
};
use ledger_orchestration::transfer::{
    RequestError, TransferEvent, TransferOutcome, TransferRequest, TransferResult, TransferTask,
};
use solana_sdk::signature::Keypair;
use solana_sdk::signer::Signer;

const MILLI: u128 = 1_000_000;

fn payer() -> Keypair {
    Keypair::new_from_array([11u8; 32])
}

fn receiver() -> String {
    Keypair::new_from_array([12u8; 32]).pubkey().to_string()
}

fn template() -> TransferRequest {
    TransferRequest { credential: payer().to_base58_string(), destination: receiver(), amount: 42 }
}

fn fresh() -> Dispatcher {
    Dispatcher::new(&template()).ok().expect("the template is well formed")
}

fn idle() -> Dispatcher {
    let (connected, _) = fresh().step(DispatcherEvent::Connected, 0);
    let (subscribed, _) = connected.step(DispatcherEvent::Acknowledged, 0);
    assert_eq!(subscribed.phase(), DispatcherPhase::Idle);
    subscribed
}

fn dispatching(now: u128) -> Dispatcher {
    let (dispatcher, action) = idle().step(DispatcherEvent::EventArrived, now);
    assert_eq!(action, Some(DispatcherAction::FetchToken));
    dispatcher
}

fn transfer(event: TransferEvent) -> DispatcherEvent {
    DispatcherEvent::Transfer { event }
}

fn outcome(result: TransferResult, elapsed_nanos: u128) -> TransferOutcome {
    TransferOutcome {
        source: payer().pubkey().to_string(),
        destination: receiver(),
        amount: 42,
        result,
        elapsed_nanos,
    }
}

#[test]
fn a_new_dispatcher_is_connecting() {
    assert_eq!(fresh().phase(), DispatcherPhase::Connecting);
}

#[test]
fn a_malformed_template_is_refused() {
    let mut bad_credential = template();
    bad_credential.credential = "BAD".to_string();
    assert_eq!(Dispatcher::new(&bad_credential).err(), Some(RequestError::MalformedCredential));
    let mut bad_destination = template();
    bad_destination.destination = "BAD".to_string();
    assert_eq!(Dispatcher::new(&bad_destination).err(), Some(RequestError::MalformedDestination));
}

#[test]
fn connecting_leads_to_the_subscription_request() {
    let (dispatcher, action) = fresh().step(DispatcherEvent::Connected, 5);
    assert_eq!(action, Some(DispatcherAction::Subscribe));
    assert_eq!(dispatcher.phase(), DispatcherPhase::Subscribed);
}

#[test]
fn a_failed_connection_is_fatal() {
    let (dispatcher, action) =
        fresh().step(DispatcherEvent::ConnectFailed { error: "refused".to_string() }, 5);
    assert_eq!(action, Some(DispatcherAction::Abort { error: "refused".to_string() }));
    assert_eq!(dispatcher.phase(), DispatcherPhase::Closed);
}

#[test]
fn an_acknowledged_subscription_leads_to_idle() {
    let (connected, _) = fresh().step(DispatcherEvent::Connected, 0);
    let (dispatcher, action) = connected.step(DispatcherEvent::Acknowledged, 1);
    assert_eq!(action, Some(DispatcherAction::AwaitEvent));
    assert_eq!(dispatcher.phase(), DispatcherPhase::Idle);
}

#[test]
fn a_refused_subscription_is_fatal() {
    let (connected, _) = fresh().step(DispatcherEvent::Connected, 0);
    let (dispatcher, action) =
        connected.step(DispatcherEvent::SubscribeFailed { error: "no token".to_string() }, 1);
    assert_eq!(action, Some(DispatcherAction::Abort { error: "no token".to_string() }));
    assert_eq!(dispatcher.phase(), DispatcherPhase::Closed);
}

#[test]
fn an_event_sets_off_one_transfer() {
    let (dispatcher, action) = idle().step(DispatcherEvent::EventArrived, 100);
    assert_eq!(action, Some(DispatcherAction::FetchToken));
    assert_eq!(dispatcher.phase(), DispatcherPhase::Dispatching);
}

#[test]
fn the_transfer_of_an_event_runs_to_its_report() {
    let dispatcher = dispatching(1_000);
    let token = [8u8; 32];
    let (dispatcher, action) =
        dispatcher.step(transfer(TransferEvent::TokenFetched { token }), 2_000);
    let expected = solana_sdk::system_transaction::transfer(
        &payer(),
        &Keypair::new_from_array([12u8; 32]).pubkey(),
        42,
        solana_sdk::hash::Hash::new_from_array(token),
    );
    assert_eq!(action, Some(DispatcherAction::Submit { transaction: expected }));
    assert_eq!(dispatcher.phase(), DispatcherPhase::Dispatching);
    let (dispatcher, action) = dispatcher.step(
        transfer(TransferEvent::Confirmed { transaction_id: "sig1".to_string() }),
        1_000 + 120 * MILLI,
    );
    let success = TransferResult::Success { transaction_id: "sig1".to_string() };
    assert_eq!(
        action,
        Some(DispatcherAction::Report { outcome: outcome(success, 120 * MILLI) })
    );
    assert_eq!(dispatcher.phase(), DispatcherPhase::Idle);
}

#[test]
fn a_second_event_waits_for_the_first_outcome() {
    let dispatcher = dispatching(0);
    let (dispatcher, action) = dispatcher.step(DispatcherEvent::EventArrived, 1);
    assert_eq!(action, None);
    assert_eq!(dispatcher.phase(), DispatcherPhase::Dispatching);
    let (dispatcher, _) =
        dispatcher.step(transfer(TransferEvent::TokenFetched { token: [0u8; 32] }), 2);
    let (dispatcher, action) = dispatcher.step(DispatcherEvent::EventArrived, 3);
    assert_eq!(action, None);
    assert_eq!(dispatcher.phase(), DispatcherPhase::Dispatching);
    let (dispatcher, action) = dispatcher
        .step(transfer(TransferEvent::Confirmed { transaction_id: "first".to_string() }), 4);
    assert!(matches!(action, Some(DispatcherAction::Report { .. })));
    let (dispatcher, action) = dispatcher.step(DispatcherEvent::EventArrived, 5);
    assert_eq!(action, Some(DispatcherAction::FetchToken));
    assert_eq!(dispatcher.phase(), DispatcherPhase::Dispatching);
}

#[test]
fn a_failed_transfer_is_reported_and_the_subscription_stays() {
    let dispatcher = dispatching(10);
    let (dispatcher, action) = dispatcher
        .step(transfer(TransferEvent::TokenFailed { error: "node is behind".to_string() }), 50);
    let failure = TransferResult::Failure { error: "node is behind".to_string() };
    assert_eq!(action, Some(DispatcherAction::Report { outcome: outcome(failure, 40) }));
    assert_eq!(dispatcher.phase(), DispatcherPhase::Idle);

    let (dispatcher, _) = dispatcher.step(DispatcherEvent::EventArrived, 60);
    let (dispatcher, _) =
        dispatcher.step(transfer(TransferEvent::TokenFetched { token: [1u8; 32] }), 61);
    let (dispatcher, action) = dispatcher
        .step(transfer(TransferEvent::Rejected { error: "insufficient funds".to_string() }), 90);
    let failure = TransferResult::Failure { error: "insufficient funds".to_string() };
    assert_eq!(action, Some(DispatcherAction::Report { outcome: outcome(failure, 30) }));
    assert_eq!(dispatcher.phase(), DispatcherPhase::Idle);
}

#[test]
fn every_event_gets_a_fresh_transfer_from_the_template() {
    let mut dispatcher = idle();
    for round in 0..3u128 {
        let start = 1_000 * round;
        let (next, action) = dispatcher.step(DispatcherEvent::EventArrived, start);
        assert_eq!(action, Some(DispatcherAction::FetchToken));
        let (next, action) =
            next.step(transfer(TransferEvent::TokenFetched { token: [round as u8; 32] }), start);
        assert!(matches!(action, Some(DispatcherAction::Submit { .. })));
        let (next, action) = next.step(
            transfer(TransferEvent::Confirmed { transaction_id: format!("sig{}", round) }),
            start + 7,
        );
        let success = TransferResult::Success { transaction_id: format!("sig{}", round) };
        assert_eq!(action, Some(DispatcherAction::Report { outcome: outcome(success, 7) }));
        dispatcher = next;
    }
    assert_eq!(dispatcher.phase(), DispatcherPhase::Idle);
}

#[test]
fn the_end_of_the_stream_closes_an_idle_dispatcher() {
    let (dispatcher, action) = idle().step(DispatcherEvent::StreamEnded, 9);
    assert_eq!(action, Some(DispatcherAction::Exit));
    assert_eq!(dispatcher.phase(), DispatcherPhase::Closed);
}

#[test]
fn the_stream_is_not_heard_while_a_transfer_is_in_flight() {
    let (dispatcher, action) = dispatching(0).step(DispatcherEvent::StreamEnded, 1);
    assert_eq!(action, None);
    assert_eq!(dispatcher.phase(), DispatcherPhase::Dispatching);
}

#[test]
fn a_closed_dispatcher_hears_nothing() {
    let (mut dispatcher, _) = idle().step(DispatcherEvent::StreamEnded, 9);
    let events = vec![
        DispatcherEvent::Connected,
        DispatcherEvent::Acknowledged,
        DispatcherEvent::EventArrived,
        DispatcherEvent::StreamEnded,
        transfer(TransferEvent::Started),
        DispatcherEvent::ConnectFailed { error: "x".to_string() },
        DispatcherEvent::SubscribeFailed { error: "x".to_string() },
    ];
    for event in events {
        let (next, action) = dispatcher.step(event, 10);
        assert_eq!(action, None);
        assert_eq!(next.phase(), DispatcherPhase::Closed);
        dispatcher = next;
    }
}

#[test]
fn events_out_of_place_are_ignored() {
    let (dispatcher, action) = fresh().step(DispatcherEvent::EventArrived, 0);
    assert_eq!(action, None);
    assert_eq!(dispatcher.phase(), DispatcherPhase::Connecting);
    let (dispatcher, action) = dispatcher.step(DispatcherEvent::Acknowledged, 0);
    assert_eq!(action, None);
    assert_eq!(dispatcher.phase(), DispatcherPhase::Connecting);

    let (connected, _) = fresh().step(DispatcherEvent::Connected, 0);
    let (connected, action) = connected.step(DispatcherEvent::Connected, 0);
    assert_eq!(action, None);
    let (connected, action) = connected.step(DispatcherEvent::EventArrived, 0);
    assert_eq!(action, None);
    assert_eq!(connected.phase(), DispatcherPhase::Subscribed);

    let (waiting, action) = idle().step(transfer(TransferEvent::Started), 0);
    assert_eq!(action, None);
    let (waiting, action) = waiting.step(DispatcherEvent::Connected, 0);
    assert_eq!(action, None);
    assert_eq!(waiting.phase(), DispatcherPhase::Idle);

    let (busy, action) = dispatching(0).step(transfer(TransferEvent::Started), 1);
    assert_eq!(action, None);
    let (busy, action) =
        busy.step(transfer(TransferEvent::Confirmed { transaction_id: "x".to_string() }), 1);
    assert_eq!(action, None);
    assert_eq!(busy.phase(), DispatcherPhase::Dispatching);
}

#[test]
fn a_dispatcher_is_made_around_a_prepared_task() {
    let task = TransferTask::prepare(&template()).ok().expect("the template is well formed");
    let dispatcher = Dispatcher::with_template(task);
    assert_eq!(dispatcher.phase(), DispatcherPhase::Connecting);
    let (dispatcher, _) = dispatcher.step(DispatcherEvent::Connected, 0);
    let (dispatcher, _) = dispatcher.step(DispatcherEvent::Acknowledged, 0);
    let (dispatcher, action) = dispatcher.step(DispatcherEvent::EventArrived, 0);
    assert_eq!(action, Some(DispatcherAction::FetchToken));
    assert_eq!(dispatcher.phase(), DispatcherPhase::Dispatching);
}

#[test]
fn a_template_that_was_started_sets_nothing_off() {
    let mut task = TransferTask::prepare(&template()).ok().expect("the template is well formed");
    task.step(TransferEvent::Started, 0);
    let dispatcher = Dispatcher::with_template(task);
    let (dispatcher, _) = dispatcher.step(DispatcherEvent::Connected, 0);
    let (dispatcher, _) = dispatcher.step(DispatcherEvent::Acknowledged, 0);
    let (dispatcher, action) = dispatcher.step(DispatcherEvent::EventArrived, 0);
    assert_eq!(action, None);
    assert_eq!(dispatcher.phase(), DispatcherPhase::Idle);
}
