//! The lines that results are reported in, one line per result.
//!
//! A line is a function of the result it reports and of nothing else: the
//! spec functions here say what the line is, character for character.

use crate::balances::{BalanceQueryResult, BalanceQueryResultView};
use crate::text::{decimal, duration_text, push_decimal, push_duration};
use crate::transfer::{TransferOutcome, TransferOutcomeView, TransferResult, TransferResultView};
use vstd::prelude::*;
use vstd::string::StringExecFns;

verus! {

/// The amount that a balance is shown as: the balance, and zero where it is
/// absent.
pub open spec fn shown_amount(balance: Option<u64>) -> u64 {
    match balance {
        Some(amount) => amount,
        None => 0,
    }
}

/// The line for a balance: `<address>: <amount>`.
pub open spec fn balance_line_text(result: BalanceQueryResultView) -> Seq<char> {
    result.address + ": "@ + decimal(shown_amount(result.balance) as nat)
}

/// How the line for a transfer begins: with the word for its result.
pub open spec fn transfer_line_head(result: TransferResultView) -> Seq<char> {
    match result {
        TransferResultView::Success { .. } => "Success: "@,
        TransferResultView::Failure { .. } => "Error: "@,
    }
}

/// How the line for a transfer ends: with the transaction's identifier, or
/// with the reason of the failure.
pub open spec fn transfer_line_tail(result: TransferResultView) -> Seq<char> {
    match result {
        TransferResultView::Success { transaction_id } => ", id: "@ + transaction_id,
        TransferResultView::Failure { error } => ", details: "@ + error,
    }
}

/// The line for a transfer:
/// `Success: <source> -> <destination> (<amount>) in <duration>, id: <id>`, or
/// `Error: <source> -> <destination> (<amount>) in <duration>, details: <error>`.
pub open spec fn transfer_line_text(outcome: TransferOutcomeView) -> Seq<char> {
    transfer_line_head(outcome.result) + outcome.source + " -> "@ + outcome.destination + " ("@
        + decimal(outcome.amount as nat) + ") in "@ + duration_text(outcome.elapsed_nanos as nat)
        + transfer_line_tail(outcome.result)
}

/// The amount that a balance is shown as.
pub fn displayed_amount(balance: Option<u64>) -> (amount: u64)
    ensures
        amount == shown_amount(balance),
{
    match balance {
        Some(amount) => amount,
        None => 0,
    }
}

/// The line that reports one balance.
pub fn balance_line(result: &BalanceQueryResult) -> (line: String)
    ensures
        line@ == balance_line_text(result@),
{
    let mut line = result.address.clone();
    line.append(": ");
    push_decimal(&mut line, displayed_amount(result.balance) as u128);
    line
}

/// The line that reports one transfer.
pub fn transfer_line(outcome: &TransferOutcome) -> (line: String)
    ensures
        line@ == transfer_line_text(outcome@),
{
    let mut line = String::new();
    match &outcome.result {
        TransferResult::Success { .. } => {
            line.append("Success: ");
        },
        TransferResult::Failure { .. } => {
            line.append("Error: ");
        },
    }
    assert(line@ =~= transfer_line_head(outcome@.result));
    line.append(outcome.source.as_str());
    line.append(" -> ");
    line.append(outcome.destination.as_str());
    line.append(" (");
    push_decimal(&mut line, outcome.amount as u128);
    line.append(") in ");
    push_duration(&mut line, outcome.elapsed_nanos);
    let ghost body = line@;
    match &outcome.result {
        TransferResult::Success { transaction_id } => {
            line.append(", id: ");
            line.append(transaction_id.as_str());
        },
        TransferResult::Failure { error } => {
            line.append(", details: ");
            line.append(error.as_str());
        },
    }
    assert(line@ =~= body + transfer_line_tail(outcome@.result));
    line
}

/// The lines that report a batch of balances, one per result and in their
/// order; `None` for an empty batch, which has nothing to report but that no
/// address was given.
pub fn balance_report(results: &Vec<BalanceQueryResult>) -> (report: Option<Vec<String>>)
    ensures
        report is None <==> results@.len() == 0,
        report matches Some(lines) ==> lines@.len() == results@.len() && forall|i: int|
            0 <= i < lines@.len() ==> (#[trigger] lines@[i])@ == balance_line_text(results@[i]@),
{
    if results.len() == 0 {
        return None;
    }
    let mut lines: Vec<String> = Vec::new();
    let mut next: usize = 0;
    while next < results.len()
        invariant
            next <= results@.len(),
            lines@.len() == next,
            forall|i: int|
                0 <= i < next ==> (#[trigger] lines@[i])@ == balance_line_text(results@[i]@),
        decreases results@.len() - next,
    {
        lines.push(balance_line(&results[next]));
        next = next + 1;
    }
    Some(lines)
}

/// The lines that report a batch of transfers, one per outcome and in their
/// order.
pub fn transfer_report(outcomes: &Vec<TransferOutcome>) -> (lines: Vec<String>)
    ensures
        lines@.len() == outcomes@.len(),
        forall|i: int|
            0 <= i < lines@.len() ==> (#[trigger] lines@[i])@ == transfer_line_text(
                outcomes@[i]@,
            ),
{
    let mut lines: Vec<String> = Vec::new();
    let mut next: usize = 0;
    while next < outcomes.len()
        invariant
            next <= outcomes@.len(),
            lines@.len() == next,
            forall|i: int|
                0 <= i < next ==> (#[trigger] lines@[i])@ == transfer_line_text(outcomes@[i]@),
        decreases outcomes@.len() - next,
    {
        lines.push(transfer_line(&outcomes[next]));
        next = next + 1;
    }
    lines
}

/// The report line is a function of the outcome's value: two outcomes that
/// hold the same accounts, amount, result and time are reported alike,
/// whenever and however often they are formatted.
pub proof fn transfer_line_is_determined(first: TransferOutcome, second: TransferOutcome)
    requires
        first@ == second@,
    ensures
        transfer_line_text(first@) == transfer_line_text(second@),
{
}

/// The balance line is a function of the result's value as well.
pub proof fn balance_line_is_determined(first: BalanceQueryResult, second: BalanceQueryResult)
    requires
        first@ == second@,
    ensures
        balance_line_text(first@) == balance_line_text(second@),
{
}

} // verus!
