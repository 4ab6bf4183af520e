//! One value transfer, from request to outcome.
//!
//! A transfer alternates work on the ledger node with decisions. The
//! decisions are [`TransferTask::step`]: it takes what the node just did and
//! says what to do next. Whoever drives the task performs the action and hands
//! back the event, together with a reading of a monotonic clock in
//! nanoseconds.
//!
//! A task fetches a sequencing token, signs the transfer against it, submits
//! it, and finishes with a [`TransferOutcome`]. Whatever goes wrong on the way
//! ends the task with a failure outcome that carries the error's text; the
//! elapsed time runs from the start of the task to its end.

use crate::ledger::{
    address_of_keypair, base58_bytes, credential_address, decode_base58, is_address,
    keypair_address, sign_transfer, signed_transfer, well_formed_address,
};
use solana_sdk::transaction::Transaction;
use vstd::prelude::*;
use vstd::string::StringExecFns;

verus! {

/// One transfer to make: who pays, who receives, how much.
///
/// A request holds secret signing material, so it has no `Debug` form.
pub struct TransferRequest {
    /// The signing material of the paying account, as base58 text.
    pub credential: String,
    /// The address of the receiving account.
    pub destination: String,
    /// The amount, in the ledger's smallest unit.
    pub amount: u64,
}

/// A [`TransferRequest`] as a value of the model.
pub struct TransferRequestView {
    pub credential: Seq<char>,
    pub destination: Seq<char>,
    pub amount: u64,
}

impl View for TransferRequest {
    type V = TransferRequestView;

    open spec fn view(&self) -> TransferRequestView {
        TransferRequestView {
            credential: self.credential@,
            destination: self.destination@,
            amount: self.amount,
        }
    }
}

/// How a transfer ended.
#[derive(Debug, PartialEq, Eq)]
pub enum TransferResult {
    /// The network confirmed the transaction with this identifier.
    Success { transaction_id: String },
    /// The transfer failed; the text says why.
    Failure { error: String },
}

/// A [`TransferResult`] as a value of the model.
pub enum TransferResultView {
    Success { transaction_id: Seq<char> },
    Failure { error: Seq<char> },
}

impl View for TransferResult {
    type V = TransferResultView;

    open spec fn view(&self) -> TransferResultView {
        match self {
            TransferResult::Success { transaction_id } => TransferResultView::Success {
                transaction_id: transaction_id@,
            },
            TransferResult::Failure { error } => TransferResultView::Failure { error: error@ },
        }
    }
}

/// The outcome of one transfer.
#[derive(Debug, PartialEq, Eq)]
pub struct TransferOutcome {
    /// The address of the paying account, derived from the credential.
    pub source: String,
    /// The address of the receiving account.
    pub destination: String,
    /// The amount, in the ledger's smallest unit.
    pub amount: u64,
    /// Success with the transaction's identifier, or failure with its reason.
    pub result: TransferResult,
    /// Time from the start of the transfer to its end, in nanoseconds.
    pub elapsed_nanos: u128,
}

/// A [`TransferOutcome`] as a value of the model.
pub struct TransferOutcomeView {
    pub source: Seq<char>,
    pub destination: Seq<char>,
    pub amount: u64,
    pub result: TransferResultView,
    pub elapsed_nanos: u128,
}

impl View for TransferOutcome {
    type V = TransferOutcomeView;

    open spec fn view(&self) -> TransferOutcomeView {
        TransferOutcomeView {
            source: self.source@,
            destination: self.destination@,
            amount: self.amount,
            result: self.result@,
            elapsed_nanos: self.elapsed_nanos,
        }
    }
}

impl TransferOutcome {
    /// A copy of this outcome.
    pub fn duplicate(&self) -> (copy: TransferOutcome)
        ensures
            copy == *self,
    {
        let result = match &self.result {
            TransferResult::Success { transaction_id } => TransferResult::Success {
                transaction_id: transaction_id.clone(),
            },
            TransferResult::Failure { error } => TransferResult::Failure { error: error.clone() },
        };
        TransferOutcome {
            source: self.source.clone(),
            destination: self.destination.clone(),
            amount: self.amount,
            result,
            elapsed_nanos: self.elapsed_nanos,
        }
    }
}

/// Why a transfer request cannot be worked on at all.
#[derive(Clone, Copy, Debug, PartialEq, Eq)]
pub enum RequestError {
    /// The credential is not the base58 text of a key pair.
    MalformedCredential,
    /// The destination is not the base58 text of an address.
    MalformedDestination,
}

/// Where a transfer task stands.
#[derive(Clone, Copy, Debug, PartialEq, Eq)]
pub enum TransferPhase {
    /// Prepared, not started.
    Ready,
    /// Waiting for the node's sequencing token.
    FetchingToken,
    /// Signed and handed to the node; waiting for the confirmation.
    Submitting,
    /// Ended with an outcome.
    Finished,
}

/// What the driver of a task reports back to it.
#[derive(Debug, PartialEq, Eq)]
pub enum TransferEvent {
    /// The task is being started.
    Started,
    /// The node returned a sequencing token.
    TokenFetched { token: [u8; 32] },
    /// The node could not give a sequencing token.
    TokenFailed { error: String },
    /// The node took the transaction and the network confirmed it.
    Confirmed { transaction_id: String },
    /// Submission or confirmation failed.
    Rejected { error: String },
}

/// A [`TransferEvent`] as a value of the model.
pub enum TransferEventView {
    Started,
    TokenFetched { token: Seq<u8> },
    TokenFailed { error: Seq<char> },
    Confirmed { transaction_id: Seq<char> },
    Rejected { error: Seq<char> },
}

impl View for TransferEvent {
    type V = TransferEventView;

    open spec fn view(&self) -> TransferEventView {
        match self {
            TransferEvent::Started => TransferEventView::Started,
            TransferEvent::TokenFetched { token } => TransferEventView::TokenFetched {
                token: token@,
            },
            TransferEvent::TokenFailed { error } => TransferEventView::TokenFailed {
                error: error@,
            },
            TransferEvent::Confirmed { transaction_id } => TransferEventView::Confirmed {
                transaction_id: transaction_id@,
            },
            TransferEvent::Rejected { error } => TransferEventView::Rejected { error: error@ },
        }
    }
}

/// What the driver of a task is to do next.
#[derive(Debug, PartialEq, Eq)]
pub enum TransferAction {
    /// Ask the node for a sequencing token.
    FetchToken,
    /// Submit this signed transaction and wait for its confirmation.
    Submit { transaction: Transaction },
    /// Nothing more: the transfer has ended with this outcome.
    Finish { outcome: TransferOutcome },
}

/// A [`TransferAction`] as a value of the model.
pub enum TransferActionView {
    FetchToken,
    Submit { transaction: Transaction },
    Finish { outcome: TransferOutcomeView },
}

impl View for TransferAction {
    type V = TransferActionView;

    open spec fn view(&self) -> TransferActionView {
        match self {
            TransferAction::FetchToken => TransferActionView::FetchToken,
            TransferAction::Submit { transaction } => TransferActionView::Submit {
                transaction: *transaction,
            },
            TransferAction::Finish { outcome } => TransferActionView::Finish { outcome: outcome@ },
        }
    }
}

/// A transfer in progress.
pub struct TransferTask {
    keypair: Vec<u8>,
    source: String,
    destination: String,
    amount: u64,
    phase: TransferPhase,
    started: u128,
}

/// A [`TransferTask`] as a value of the model.
pub struct TransferTaskView {
    /// The bytes of the paying account's key pair.
    pub keypair: Seq<u8>,
    /// The address of the paying account.
    pub source: Seq<char>,
    /// The address of the receiving account.
    pub destination: Seq<char>,
    /// The amount, in the ledger's smallest unit.
    pub amount: u64,
    /// Where the task stands.
    pub phase: TransferPhase,
    /// The clock reading at which the task was started.
    pub started: u128,
}

impl View for TransferTask {
    type V = TransferTaskView;

    closed spec fn view(&self) -> TransferTaskView {
        TransferTaskView {
            keypair: self.keypair@,
            source: self.source@,
            destination: self.destination@,
            amount: self.amount,
            phase: self.phase,
            started: self.started,
        }
    }
}

/// What is wrong with a request, if anything. The credential is looked at
/// first.
pub open spec fn request_error(request: TransferRequestView) -> Option<RequestError> {
    if credential_address(request.credential) is None {
        Some(RequestError::MalformedCredential)
    } else if !well_formed_address(request.destination) {
        Some(RequestError::MalformedDestination)
    } else {
        None
    }
}

/// The task that a well-formed request is prepared into.
pub open spec fn prepared(request: TransferRequestView) -> TransferTaskView {
    TransferTaskView {
        keypair: base58_bytes(request.credential)->0,
        source: credential_address(request.credential)->0,
        destination: request.destination,
        amount: request.amount,
        phase: TransferPhase::Ready,
        started: 0,
    }
}

/// Time from `started` to `now` on a monotonic clock; zero should the clock
/// have gone backwards.
pub open spec fn elapsed_between(started: u128, now: u128) -> u128 {
    if now >= started {
        (now - started) as u128
    } else {
        0
    }
}

/// Whether the task's key pair and destination are such that its transfer can
/// be signed. A task made by [`TransferTask::prepare`] can.
pub open spec fn can_sign(task: TransferTaskView) -> bool {
    keypair_address(task.keypair) is Some && well_formed_address(task.destination)
}

/// The error text of a transfer whose transaction could not be signed.
pub open spec fn unsigned_error() -> Seq<char> {
    "the transfer could not be signed"@
}

/// The task ended at `now` with `result`, and the action that says so.
pub open spec fn finished(task: TransferTaskView, result: TransferResultView, now: u128) -> (
    TransferTaskView,
    TransferActionView,
) {
    (
        TransferTaskView { phase: TransferPhase::Finished, ..task },
        TransferActionView::Finish {
            outcome: TransferOutcomeView {
                source: task.source,
                destination: task.destination,
                amount: task.amount,
                result,
                elapsed_nanos: elapsed_between(task.started, now),
            },
        },
    )
}

/// What signing the task's transfer against `token` gives: the signed
/// transaction where the task can sign, and nothing where it cannot.
pub open spec fn signing(task: TransferTaskView, token: Seq<u8>) -> Option<Transaction> {
    if can_sign(task) {
        Some(signed_transfer(task.keypair, task.destination, task.amount, token)->0)
    } else {
        None
    }
}

/// A task that waits for its token, after an attempt to sign its transfer:
/// with a signed transaction it goes on to submit it, without one it ends in
/// failure. `None` for a task in any other phase.
pub open spec fn after_signing(task: TransferTaskView, signed: Option<Transaction>, now: u128)
    -> Option<(TransferTaskView, TransferActionView)> {
    if task.phase == TransferPhase::FetchingToken {
        match signed {
            Some(transaction) => Some(
                (
                    TransferTaskView { phase: TransferPhase::Submitting, ..task },
                    TransferActionView::Submit { transaction },
                ),
            ),
            None => Some(
                finished(task, TransferResultView::Failure { error: unsigned_error() }, now),
            ),
        }
    } else {
        None
    }
}

/// What is wrong with a request, given what the ledger's client library made
/// of it: the decoded credential, the address derived from it, and whether the
/// destination was accepted. The credential is looked at first.
pub open spec fn parts_error(
    keypair: Option<Vec<u8>>,
    source: Option<String>,
    destination_accepted: bool,
) -> Option<RequestError> {
    if keypair is None || source is None {
        Some(RequestError::MalformedCredential)
    } else if !destination_accepted {
        Some(RequestError::MalformedDestination)
    } else {
        None
    }
}

/// The task for a request whose credential decodes to `keypair` and signs for
/// `source`: ready, not started.
pub open spec fn task_of_parts(request: TransferRequestView, keypair: Seq<u8>, source: Seq<char>)
    -> TransferTaskView {
    TransferTaskView {
        keypair,
        source,
        destination: request.destination,
        amount: request.amount,
        phase: TransferPhase::Ready,
        started: 0,
    }
}

/// The decisions of a transfer: the task after `event` arrived at clock
/// reading `now`, and what to do next. `None` where the event has no place in
/// the task's phase: the task has not taken it.
///
/// - `Ready`, on `Started`: note the time and fetch a token.
/// - `FetchingToken`, on `TokenFetched`: sign against the token and submit;
///   finish with a failure if signing is refused. On `TokenFailed`: finish
///   with that failure, submitting nothing.
/// - `Submitting`, on `Confirmed`: finish with success. On `Rejected`: finish
///   with that failure.
pub open spec fn transfer_step(task: TransferTaskView, event: TransferEventView, now: u128)
    -> Option<(TransferTaskView, TransferActionView)> {
    match (task.phase, event) {
        (TransferPhase::Ready, TransferEventView::Started) => Some(
            (
                TransferTaskView { phase: TransferPhase::FetchingToken, started: now, ..task },
                TransferActionView::FetchToken,
            ),
        ),
        (TransferPhase::FetchingToken, TransferEventView::TokenFetched { token }) => after_signing(
            task,
            signing(task, token),
            now,
        ),
        (TransferPhase::FetchingToken, TransferEventView::TokenFailed { error }) => Some(
            finished(task, TransferResultView::Failure { error }, now),
        ),
        (TransferPhase::Submitting, TransferEventView::Confirmed { transaction_id }) => Some(
            finished(task, TransferResultView::Success { transaction_id }, now),
        ),
        (TransferPhase::Submitting, TransferEventView::Rejected { error }) => Some(
            finished(task, TransferResultView::Failure { error }, now),
        ),
        _ => None,
    }
}

/// The address that a credential signs for, if the credential is well formed.
pub fn source_address(credential: &str) -> (address: Option<String>)
    ensures
        address is Some <==> credential_address(credential@) is Some,
        address matches Some(text) ==> credential_address(credential@) == Some(text@),
{
    match decode_base58(credential) {
        Some(keypair) => address_of_keypair(keypair.as_slice()),
        None => None,
    }
}

impl TransferTask {
    /// Prepares the task for a request: decodes the credential, derives the
    /// paying account's address from it and checks the destination.
    pub fn prepare(request: &TransferRequest) -> (task: Result<TransferTask, RequestError>)
        ensures
            match request_error(request@) {
                Some(error) => task matches Err(found) && found == error,
                None => task matches Ok(made) && made@ == prepared(request@),
            },
    {
        let keypair = decode_base58(request.credential.as_str());
        let source = match &keypair {
            Some(bytes) => address_of_keypair(bytes.as_slice()),
            None => None,
        };
        let destination_accepted = is_address(request.destination.as_str());
        TransferTask::from_parts(request, keypair, source, destination_accepted)
    }

    /// The task for a request, made of what the ledger's client library made
    /// of the request: the decoded credential, the address derived from it,
    /// and whether the destination was accepted.
    pub fn from_parts(
        request: &TransferRequest,
        keypair: Option<Vec<u8>>,
        source: Option<String>,
        destination_accepted: bool,
    ) -> (task: Result<TransferTask, RequestError>)
        ensures
            match parts_error(keypair, source, destination_accepted) {
                Some(error) => task matches Err(found) && found == error,
                None => task matches Ok(made) && made@ == task_of_parts(
                    request@,
                    keypair->0@,
                    source->0@,
                ),
            },
    {
        match (keypair, source) {
            (Some(keypair), Some(source)) => {
                if destination_accepted {
                    Ok(
                        TransferTask {
                            keypair,
                            source,
                            destination: request.destination.clone(),
                            amount: request.amount,
                            phase: TransferPhase::Ready,
                            started: 0,
                        },
                    )
                } else {
                    Err(RequestError::MalformedDestination)
                }
            },
            _ => Err(RequestError::MalformedCredential),
        }
    }

    /// Where the task stands.
    pub fn phase(&self) -> (phase: TransferPhase)
        ensures
            phase == self@.phase,
    {
        self.phase
    }

    /// The address of the paying account.
    pub fn source(&self) -> (source: &str)
        ensures
            source@ == self@.source,
    {
        self.source.as_str()
    }

    /// The address of the receiving account.
    pub fn destination(&self) -> (destination: &str)
        ensures
            destination@ == self@.destination,
    {
        self.destination.as_str()
    }

    /// The amount, in the ledger's smallest unit.
    pub fn amount(&self) -> (amount: u64)
        ensures
            amount == self@.amount,
    {
        self.amount
    }

    /// A second task for the same transfer, in the same state. Kept to this
    /// crate: a task owns its credential, and only the dispatcher, which
    /// makes one transfer at a time from its template, takes copies.
    pub(crate) fn duplicate(&self) -> (copy: TransferTask)
        ensures
            copy@ == self@,
    {
        let mut keypair: Vec<u8> = Vec::new();
        let mut copied: usize = 0;
        while copied < self.keypair.len()
            invariant
                copied <= self.keypair.len(),
                keypair@ == self.keypair@.take(copied as int),
            decreases self.keypair.len() - copied,
        {
            keypair.push(self.keypair[copied]);
            copied = copied + 1;
            assert(keypair@ =~= self.keypair@.take(copied as int));
        }
        assert(keypair@ =~= self.keypair@);
        TransferTask {
            keypair,
            source: self.source.clone(),
            destination: self.destination.clone(),
            amount: self.amount,
            phase: self.phase,
            started: self.started,
        }
    }

    /// Ends the task at `now` with `result`.
    fn finish(&mut self, result: TransferResult, now: u128) -> (action: TransferAction)
        ensures
            (final(self)@, action@) == finished(old(self)@, result@, now),
    {
        let elapsed_nanos: u128 = if now >= self.started {
            now - self.started
        } else {
            0
        };
        self.phase = TransferPhase::Finished;
        TransferAction::Finish {
            outcome: TransferOutcome {
                source: self.source.clone(),
                destination: self.destination.clone(),
                amount: self.amount,
                result,
                elapsed_nanos,
            },
        }
    }

    /// Takes in what came of signing the task's transfer, at clock reading
    /// `now`: a task that waits for its token goes on to submit the signed
    /// transaction, or ends in failure if there is none. A task in any other
    /// phase is left as it is and answers `None`.
    pub fn signed(&mut self, signed: Option<Transaction>, now: u128) -> (action: Option<
        TransferAction,
    >)
        ensures
            match after_signing(old(self)@, signed, now) {
                Some((next, act)) => {
                    &&& final(self)@ == next
                    &&& action matches Some(given)
                    &&& given@ == act
                },
                None => final(self)@ == old(self)@ && action is None,
            },
    {
        match self.phase {
            TransferPhase::FetchingToken => match signed {
                Some(transaction) => {
                    self.phase = TransferPhase::Submitting;
                    Some(TransferAction::Submit { transaction })
                },
                None => {
                    let error = String::from_str("the transfer could not be signed");
                    Some(self.finish(TransferResult::Failure { error }, now))
                },
            },
            _ => None,
        }
    }

    /// Takes in what the node just did, at clock reading `now`, and says what
    /// to do next. An event that has no place in the task's phase leaves the
    /// task as it is and is answered with `None`.
    pub fn step(&mut self, event: TransferEvent, now: u128) -> (action: Option<TransferAction>)
        ensures
            match transfer_step(old(self)@, event@, now) {
                Some((next, act)) => {
                    &&& final(self)@ == next
                    &&& action matches Some(given)
                    &&& given@ == act
                },
                None => final(self)@ == old(self)@ && action is None,
            },
    {
        match self.phase {
            TransferPhase::Ready => match event {
                TransferEvent::Started => {
                    self.phase = TransferPhase::FetchingToken;
                    self.started = now;
                    Some(TransferAction::FetchToken)
                },
                _ => None,
            },
            TransferPhase::FetchingToken => match event {
                TransferEvent::TokenFetched { token } => {
                    let signed = sign_transfer(
                        self.keypair.as_slice(),
                        self.destination.as_str(),
                        self.amount,
                        &token,
                    );
                    self.signed(signed, now)
                },
                TransferEvent::TokenFailed { error } => Some(
                    self.finish(TransferResult::Failure { error }, now),
                ),
                _ => None,
            },
            TransferPhase::Submitting => match event {
                TransferEvent::Confirmed { transaction_id } => Some(
                    self.finish(TransferResult::Success { transaction_id }, now),
                ),
                TransferEvent::Rejected { error } => Some(
                    self.finish(TransferResult::Failure { error }, now),
                ),
                _ => None,
            },
            TransferPhase::Finished => None,
        }
    }
}

/// A prepared task signs: once the token is there, the next action is the
/// submission of the signed transfer, never a failure to sign.
pub proof fn prepared_task_signs(request: TransferRequestView, token: Seq<u8>, now: u128)
    requires
        request_error(request) is None,
    ensures
        transfer_step(
            TransferTaskView { phase: TransferPhase::FetchingToken, ..prepared(request) },
            TransferEventView::TokenFetched { token },
            now,
        ) matches Some((next, action)) && next.phase == TransferPhase::Submitting
            && action is Submit,
{
}

/// How many events a task in this phase can still take before it has ended.
pub open spec fn steps_left(phase: TransferPhase) -> nat {
    match phase {
        TransferPhase::Ready => 3,
        TransferPhase::FetchingToken => 2,
        TransferPhase::Submitting => 1,
        TransferPhase::Finished => 0,
    }
}

/// Every accepted event moves a task forward, so a task has its outcome after
/// three events at most, and a task ends exactly with the action that carries
/// its outcome: the outcome names the task's own accounts and amount, and the
/// time since the task was started.
pub proof fn transfer_step_advances(task: TransferTaskView, event: TransferEventView, now: u128)
    requires
        transfer_step(task, event, now) is Some,
    ensures
        ({
            let (next, action) = transfer_step(task, event, now)->0;
            &&& steps_left(next.phase) < steps_left(task.phase)
            &&& next.keypair == task.keypair
            &&& next.source == task.source
            &&& next.destination == task.destination
            &&& next.amount == task.amount
            &&& (next.phase == TransferPhase::Finished <==> action is Finish)
            &&& (action matches TransferActionView::Finish { outcome } ==> outcome.source
                == task.source && outcome.destination == task.destination && outcome.amount
                == task.amount && outcome.elapsed_nanos == elapsed_between(task.started, now))
        }),
{
}

/// The task after `event`: moved on if the event has a place, and as it was
/// if not.
pub open spec fn task_after(task: TransferTaskView, event: TransferEventView, now: u128)
    -> TransferTaskView {
    match transfer_step(task, event, now) {
        Some((next, _)) => next,
        None => task,
    }
}

/// The task after a run of events, each with its clock reading, fed first to
/// last.
pub open spec fn task_after_all(task: TransferTaskView, events: Seq<(TransferEventView, u128)>)
    -> TransferTaskView
    decreases events.len(),
{
    if events.len() == 0 {
        task
    } else {
        task_after(task_after_all(task, events.drop_last()), events.last().0, events.last().1)
    }
}

/// Whether `event` makes the task sign its transfer.
pub open spec fn signs(task: TransferTaskView, event: TransferEventView, now: u128) -> bool {
    transfer_step(task, event, now) matches Some((_, action)) && action is Submit
}

/// How often the task signs during a run of events.
pub open spec fn signatures_made(task: TransferTaskView, events: Seq<(TransferEventView, u128)>)
    -> nat
    decreases events.len(),
{
    if events.len() == 0 {
        0
    } else {
        signatures_made(task, events.drop_last()) + if signs(
            task_after_all(task, events.drop_last()),
            events.last().0,
            events.last().1,
        ) {
            1nat
        } else {
            0nat
        }
    }
}

/// One if a task in this phase has its signature still before it, zero if
/// not.
pub open spec fn may_still_sign(phase: TransferPhase) -> nat {
    if phase == TransferPhase::Ready || phase == TransferPhase::FetchingToken {
        1
    } else {
        0
    }
}

/// A credential signs at most once for a request: whatever events a task is
/// fed, and however often, it signs no more than one transaction, and none
/// once it is submitting or finished.
pub proof fn credential_signs_at_most_once(
    task: TransferTaskView,
    events: Seq<(TransferEventView, u128)>,
)
    ensures
        signatures_made(task, events) + may_still_sign(task_after_all(task, events).phase)
            <= may_still_sign(task.phase),
        signatures_made(task, events) <= 1,
    decreases events.len(),
{
    if events.len() > 0 {
        credential_signs_at_most_once(task, events.drop_last());
    }
}

} // verus!
