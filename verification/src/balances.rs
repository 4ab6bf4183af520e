//! Balance queries for a batch of account addresses.
//!
//! The batch fans out one query per address, numbered by the address's
//! position. Whoever runs the queries notes each reply as it comes in, with
//! the number of its query; [`get_balances`] files the replies in an
//! [`OrderedJoin`] and pairs every address with what its own query brought
//! back. A query that failed, or never reported, leaves the balance absent and
//! touches no other result.

use crate::join::{
    arrivals, join_ignores_completion_order, join_is_positional, join_isolates_units,
    record_all, record_all_extends, record_all_keeps_length, reports_in_range, reports_once,
    unfilled, OrderedJoin,
};
use vstd::prelude::*;

verus! {

/// What the ledger node answered to one balance query: the balance in the
/// ledger's smallest unit, or the text of its error.
pub type BalanceReply = Result<u64, String>;

/// The result of one balance query.
#[derive(Debug, PartialEq, Eq)]
pub struct BalanceQueryResult {
    /// The address that was asked about.
    pub address: String,
    /// The balance, absent exactly when the query failed.
    pub balance: Option<u64>,
}

/// A [`BalanceQueryResult`] as a value of the model.
pub struct BalanceQueryResultView {
    pub address: Seq<char>,
    pub balance: Option<u64>,
}

impl View for BalanceQueryResult {
    type V = BalanceQueryResultView;

    open spec fn view(&self) -> BalanceQueryResultView {
        BalanceQueryResultView { address: self.address@, balance: self.balance }
    }
}

/// The balance that a reply carries. Why a query failed is not kept.
pub open spec fn balance_in(reply: BalanceReply) -> Option<u64> {
    match reply {
        Ok(balance) => Some(balance),
        Err(_) => None,
    }
}

/// The balance that a join slot carries: that of the reply in it, and none
/// where the slot is missing or empty.
pub open spec fn balance_at(replies: Seq<Option<BalanceReply>>, index: int) -> Option<u64> {
    if 0 <= index < replies.len() {
        match replies[index] {
            Some(reply) => balance_in(reply),
            None => None,
        }
    } else {
        None
    }
}

/// The results of a batch: one per address, in the order of the addresses,
/// each with the balance from the slot at its own position.
pub open spec fn balance_results(
    addresses: Seq<String>,
    replies: Seq<Option<BalanceReply>>,
) -> Seq<BalanceQueryResultView> {
    Seq::new(
        addresses.len(),
        |i: int| BalanceQueryResultView { address: addresses[i]@, balance: balance_at(replies, i) },
    )
}

/// The result of the query for `wallet`, given the node's reply.
pub fn get_wallet_balance(wallet: &str, reply: &BalanceReply) -> (result: BalanceQueryResult)
    ensures
        result@.address == wallet@,
        result@.balance == balance_in(*reply),
{
    let balance = match reply {
        Ok(balance) => Some(*balance),
        Err(_) => None,
    };
    BalanceQueryResult { address: wallet.to_owned(), balance }
}

/// A copy of a reply.
fn copy_reply(reply: &BalanceReply) -> (copy: BalanceReply)
    ensures
        copy == *reply,
{
    match reply {
        Ok(balance) => Ok(*balance),
        Err(error) => Err(error.clone()),
    }
}

/// The results of a batch of balance queries, one per wallet and in the
/// order of the wallets.
///
/// `completions` are the replies in the order in which they came in, each
/// with the position of the wallet it answers for. That order has no bearing
/// on the result: every reply is filed under its wallet. Of two replies for
/// one wallet the first counts, and a reply for no wallet of the batch is
/// dropped.
pub fn get_balances(wallets: &Vec<String>, completions: &Vec<(usize, BalanceReply)>) -> (results:
    Vec<BalanceQueryResult>)
    ensures
        results@.len() == wallets@.len(),
        forall|i: int|
            0 <= i < results@.len() ==> (#[trigger] results@[i])@ == balance_results(
                wallets@,
                record_all(unfilled(wallets@.len()), arrivals(completions@)),
            )[i],
{
    let mut join: OrderedJoin<BalanceReply> = OrderedJoin::new(wallets.len());
    let mut filed: usize = 0;
    while filed < completions.len()
        invariant
            filed <= completions@.len(),
            join@ == record_all(
                unfilled(wallets@.len()),
                arrivals(completions@.take(filed as int)),
            ),
        decreases completions@.len() - filed,
    {
        proof {
            record_all_extends(
                unfilled::<BalanceReply>(wallets@.len()),
                completions@,
                filed as int,
            );
        }
        join.complete(completions[filed].0, copy_reply(&completions[filed].1));
        filed = filed + 1;
    }
    assert(completions@.take(filed as int) =~= completions@);
    balances_from_slots(wallets, &join.into_slots())
}

/// Assembles the results of a batch from the joined replies.
///
/// `replies` holds, at the position of each wallet, the reply of that
/// wallet's query, if one came. The result has exactly one entry per wallet,
/// in the order of `wallets`.
pub fn balances_from_slots(wallets: &Vec<String>, replies: &Vec<Option<BalanceReply>>) -> (results:
    Vec<BalanceQueryResult>)
    ensures
        results@.len() == wallets@.len(),
        forall|i: int|
            0 <= i < results@.len() ==> (#[trigger] results@[i])@ == balance_results(
                wallets@,
                replies@,
            )[i],
{
    let mut results: Vec<BalanceQueryResult> = Vec::new();
    let mut next: usize = 0;
    while next < wallets.len()
        invariant
            next <= wallets.len(),
            results@.len() == next,
            forall|i: int|
                0 <= i < next ==> (#[trigger] results@[i])@ == balance_results(
                    wallets@,
                    replies@,
                )[i],
        decreases wallets.len() - next,
    {
        let result = if next < replies.len() {
            match &replies[next] {
                Some(reply) => get_wallet_balance(wallets[next].as_str(), reply),
                None => BalanceQueryResult { address: wallets[next].clone(), balance: None },
            }
        } else {
            BalanceQueryResult { address: wallets[next].clone(), balance: None }
        };
        results.push(result);
        next = next + 1;
    }
    results
}

/// Order preservation: a batch has exactly one result per address, and the
/// result at each position is about the address at that position.
pub proof fn balances_keep_input_order(addresses: Seq<String>, replies: Seq<Option<BalanceReply>>)
    ensures
        balance_results(addresses, replies).len() == addresses.len(),
        forall|i: int|
            0 <= i < addresses.len() ==> (#[trigger] balance_results(
                addresses,
                replies,
            )[i]).address == addresses[i]@,
{
}

/// Completion timing does not show: when every query reports once, in
/// whatever order the replies come in, the result at the position of each
/// query is made from that query's own reply.
pub proof fn balances_follow_their_queries(
    addresses: Seq<String>,
    completions: Seq<(int, BalanceReply)>,
)
    requires
        reports_in_range(completions, addresses.len()),
        reports_once(completions),
    ensures
        forall|k: int|
            0 <= k < completions.len() ==> balance_results(
                addresses,
                record_all(unfilled(addresses.len()), completions),
            )[(#[trigger] completions[k]).0] == (BalanceQueryResultView {
                address: addresses[completions[k].0]@,
                balance: balance_in(completions[k].1),
            }),
{
    join_is_positional(addresses.len(), completions);
}

/// Two runs of a batch in which the same queries bring the same replies, in
/// different orders, give the same results.
pub proof fn balances_ignore_completion_order(
    addresses: Seq<String>,
    first: Seq<(int, BalanceReply)>,
    second: Seq<(int, BalanceReply)>,
)
    requires
        reports_in_range(first, addresses.len()),
        reports_in_range(second, addresses.len()),
        reports_once(first),
        reports_once(second),
        forall|k: int| 0 <= k < first.len() ==> second.contains(#[trigger] first[k]),
        forall|k: int| 0 <= k < second.len() ==> first.contains(#[trigger] second[k]),
    ensures
        balance_results(addresses, record_all(unfilled(addresses.len()), first))
            == balance_results(addresses, record_all(unfilled(addresses.len()), second)),
{
    join_ignores_completion_order(addresses.len(), first, second);
}

/// Failure isolation over a run: had one query of a run failed instead, the
/// result of that query would show no balance and every other result would
/// be as it is.
pub proof fn balance_failure_stays_with_its_query(
    addresses: Seq<String>,
    completions: Seq<(int, BalanceReply)>,
    failing: int,
    error: String,
)
    requires
        reports_in_range(completions, addresses.len()),
        reports_once(completions),
        0 <= failing < completions.len(),
    ensures
        ({
            let unit = completions[failing].0;
            let before = balance_results(
                addresses,
                record_all(unfilled(addresses.len()), completions),
            );
            let after = balance_results(
                addresses,
                record_all(
                    unfilled(addresses.len()),
                    completions.update(failing, (unit, Err(error))),
                ),
            );
            &&& after.len() == addresses.len()
            &&& after[unit].balance is None
            &&& forall|i: int|
                0 <= i < addresses.len() && i != unit ==> #[trigger] after[i] == before[i]
        }),
{
    join_isolates_units(addresses.len(), completions, failing, Err(error));
    record_all_keeps_length(unfilled::<BalanceReply>(addresses.len()), completions);
}

/// Failure isolation: when the query at one position fails instead, that
/// position's balance is absent and every other result stays as it was.
pub proof fn balance_failure_is_isolated(
    addresses: Seq<String>,
    replies: Seq<Option<BalanceReply>>,
    failing: int,
    error: String,
)
    requires
        0 <= failing < addresses.len(),
        failing < replies.len(),
    ensures
        balance_results(addresses, replies.update(failing, Some(Err(error)))).len()
            == addresses.len(),
        balance_results(addresses, replies.update(failing, Some(Err(error))))[failing].balance
            is None,
        forall|i: int|
            0 <= i < addresses.len() && i != failing ==> #[trigger] balance_results(
                addresses,
                replies.update(failing, Some(Err(error))),
            )[i] == balance_results(addresses, replies)[i],
{
}

/// An empty batch is told apart from one in which every query failed: the
/// results are empty exactly when no address was given.
pub proof fn empty_balance_batch_is_distinct(
    addresses: Seq<String>,
    replies: Seq<Option<BalanceReply>>,
)
    ensures
        balance_results(addresses, replies).len() == 0 <==> addresses.len() == 0,
{
}

} // verus!
