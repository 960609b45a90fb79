//! From a node's answers to the list of balances.
//!
//! Two ways of asking lead to the same kind of list: one query per address,
//! or one batched query for the account records of all addresses. Asking is
//! the caller's business; what is made of the answers is settled here.

use crate::address::{pubkey_to_string, Address};
use crate::error::NetworkError;
use crate::fail_fast::{all_ok, collect, first_err, first_err_at};
use vstd::prelude::*;

verus! {

/// How many of the smallest unit make one unit of display.
pub const SOL_PER_LAMPORTS: u64 = 1_000_000_000;

/// What is read of an account record that the node returned.
#[derive(Clone, Copy, Debug, PartialEq, Eq)]
pub struct AccountRecord {
    /// The balance of the account, in the smallest unit.
    pub lamports: u64,
}

/// The entry that reports `lamports` for `wallet`: the address as it is
/// displayed, and the raw balance.
pub open spec fn entry(wallet: Address, lamports: u64) -> (Seq<char>, u64) {
    (pubkey_to_string(wallet@), lamports)
}

/// `balances` follows the order of `wallets`: the entry at each position
/// shows the address at that position.
pub open spec fn in_order_of(wallets: Seq<Address>, balances: Seq<(String, u64)>) -> bool {
    &&& balances.len() <= wallets.len()
    &&& forall|i: int|
        0 <= i < balances.len() ==> (#[trigger] balances[i]).0@ == pubkey_to_string(wallets[i]@)
}

/// `outcome` is what the answer `reply` to the query for `wallet` comes to:
/// the entry for the address with the balance that came back, or the error
/// that came back.
pub open spec fn answers_for(
    wallet: Address,
    reply: Result<u64, NetworkError>,
    outcome: Result<(String, u64), NetworkError>,
) -> bool {
    match reply {
        Ok(lamports) => outcome matches Ok(found) && found.0@ == pubkey_to_string(wallet@)
            && found.1 == lamports,
        Err(error) => outcome matches Err(failure) && failure == error,
    }
}

/// The entry for one address, from the node's answer to the query for it.
///
/// A failed query fails the entry, with the error unchanged.
pub fn get_balance(wallet: &Address, reply: Result<u64, NetworkError>) -> (outcome: Result<
    (String, u64),
    NetworkError,
>)
    ensures
        answers_for(*wallet, reply, outcome),
{
    match reply {
        Ok(lamports) => Ok((wallet.to_string(), lamports)),
        Err(error) => Err(error),
    }
}

/// The entries that per-address queries give when every one of them was
/// answered: for each address, in order, the balance that its query returned.
pub open spec fn per_address(wallets: Seq<Address>, replies: Seq<Result<u64, NetworkError>>) -> Seq<
    (Seq<char>, u64),
>
    recommends
        replies.len() == wallets.len(),
        all_ok(replies),
{
    Seq::new(wallets.len(), |i: int| entry(wallets[i], replies[i]->Ok_0))
}

/// Each entry of `balances` carries the balance that the query at its
/// position returned.
pub open spec fn as_answered(
    replies: Seq<Result<u64, NetworkError>>,
    balances: Seq<(String, u64)>,
) -> bool {
    forall|i: int|
        #![trigger balances[i]]
        #![trigger replies[i]]
        0 <= i < balances.len() ==> replies[i] is Ok && balances[i].1 == replies[i]->Ok_0
}

/// The balances of `wallets` from per-address queries, where `replies` holds
/// the node's answer to the query for each address, in the order of the
/// addresses.
///
/// All answered: one entry per address, in the order of `wallets`. Else the
/// error of the first query, in that order, that failed; what the others
/// returned is dropped.
pub fn get_all_balances(wallets: &Vec<Address>, replies: Vec<Result<u64, NetworkError>>) -> (outcome:
    Result<Vec<(String, u64)>, NetworkError>)
    requires
        replies.len() == wallets.len(),
    ensures
        outcome is Ok <==> all_ok(replies@),
        match outcome {
            Ok(balances) => {
                &&& balances.len() == wallets.len()
                &&& in_order_of(wallets@, balances@)
                &&& as_answered(replies@, balances@)
                &&& balances.deep_view() == per_address(wallets@, replies@)
            },
            Err(error) => first_err(replies@, error),
        },
        forall|position: int| #[trigger]
            first_err_at(replies@, position) ==> (outcome matches Err(error) && error
                == replies@[position]->Err_0),
{
    let ghost answers = replies@;
    let mut found: Vec<Result<(String, u64), NetworkError>> = Vec::new();
    let mut i: usize = 0;
    for reply in it: replies
        invariant
            it.seq() == answers,
            answers.len() == wallets.len(),
            i == it.index(),
            found.len() == i,
            forall|j: int|
                0 <= j < i ==> answers_for(wallets@[j], answers[j], #[trigger] found@[j]),
    {
        found.push(get_balance(&wallets[i], reply));
        i += 1;
    }
    let outcome = collect(found);
    proof {
        lemma_failures_carry_over(wallets@, answers, found@);
        if outcome is Ok {
            assert(outcome->Ok_0.deep_view() =~= per_address(wallets@, answers));
        }
    }
    outcome
}

/// Where `found` holds, position by position, what each of `replies` comes
/// to, the two lists fail at the same positions.
proof fn lemma_failures_carry_over(
    wallets: Seq<Address>,
    replies: Seq<Result<u64, NetworkError>>,
    found: Seq<Result<(String, u64), NetworkError>>,
)
    requires
        found.len() == replies.len(),
        forall|i: int|
            0 <= i < replies.len() ==> answers_for(wallets[i], replies[i], #[trigger] found[i]),
    ensures
        all_ok(found) <==> all_ok(replies),
        forall|position: int|
            first_err_at(found, position) <==> first_err_at(replies, position),
{
    assert forall|i: int| 0 <= i < replies.len() implies (found[i] is Ok <==> (
    #[trigger] replies[i]) is Ok) by {
        assert(answers_for(wallets[i], replies[i], found[i]));
    }
}

/// The balance that a batched look-up reports for one position: that of the
/// account record, and zero where the node returned none.
pub open spec fn lamports_or_zero(account: Option<AccountRecord>) -> u64 {
    match account {
        Some(record) => record.lamports,
        None => 0,
    }
}

/// The balance to report for one position of a batched answer.
pub fn balance_of(account: Option<AccountRecord>) -> (lamports: u64)
    ensures
        lamports == lamports_or_zero(account),
{
    match account {
        Some(record) => record.lamports,
        None => 0,
    }
}

/// The entries that a batched query gives: for each account record that came
/// back, in order, the address at its position with the balance it reports.
pub open spec fn batched(wallets: Seq<Address>, accounts: Seq<Option<AccountRecord>>) -> Seq<
    (Seq<char>, u64),
>
    recommends
        accounts.len() <= wallets.len(),
{
    Seq::new(accounts.len(), |i: int| entry(wallets[i], lamports_or_zero(accounts[i])))
}

/// Each entry of `balances` carries the balance of the account record at its
/// position.
pub open spec fn as_recorded(
    accounts: Seq<Option<AccountRecord>>,
    balances: Seq<(String, u64)>,
) -> bool {
    forall|i: int|
        #![trigger balances[i]]
        #![trigger accounts[i]]
        0 <= i < balances.len() ==> balances[i].1 == lamports_or_zero(accounts[i])
}

/// Every position of `accounts` that holds no account record is reported in
/// `balances` with balance zero.
pub open spec fn zero_where_absent(
    accounts: Seq<Option<AccountRecord>>,
    balances: Seq<(String, u64)>,
) -> bool {
    forall|i: int|
        #![trigger balances[i]]
        #![trigger accounts[i]]
        0 <= i < balances.len() && accounts[i] is None ==> balances[i].1 == 0
}

/// The balances of `wallets` from one batched query, where `reply` is the
/// node's answer: the account record, if any, of each address, in the order
/// of the addresses.
///
/// An answer gives one entry per position, in the order of `wallets`; an
/// address without an account record is reported with balance zero, as one
/// with an empty account is. A failed request fails the whole, with the error
/// unchanged.
pub fn get_all_balances_2(
    wallets: &Vec<Address>,
    reply: Result<Vec<Option<AccountRecord>>, NetworkError>,
) -> (outcome: Result<Vec<(String, u64)>, NetworkError>)
    requires
        reply matches Ok(accounts) ==> accounts.len() <= wallets.len(),
    ensures
        match reply {
            Ok(accounts) => {
                &&& outcome matches Ok(balances)
                &&& balances.len() == accounts.len()
                &&& in_order_of(wallets@, balances@)
                &&& as_recorded(accounts@, balances@)
                &&& zero_where_absent(accounts@, balances@)
                &&& balances.deep_view() == batched(wallets@, accounts@)
            },
            Err(error) => outcome matches Err(failure) && failure == error,
        },
{
    match reply {
        Ok(accounts) => {
            let mut balances: Vec<(String, u64)> = Vec::new();
            let mut i: usize = 0;
            while i < accounts.len()
                invariant
                    0 <= i <= accounts.len() <= wallets.len(),
                    balances.len() == i,
                    in_order_of(wallets@, balances@),
                    as_recorded(accounts@, balances@),
                decreases accounts.len() - i,
            {
                balances.push((wallets[i].to_string(), balance_of(accounts[i])));
                i += 1;
            }
            assert(balances.deep_view() =~= batched(wallets@, accounts@));
            Ok(balances)
        },
        Err(error) => Err(error),
    }
}

/// Where every address has an account record, and the query for each address
/// is answered with the balance that its record holds, the per-address
/// queries and the batched query give the same entries.
pub proof fn lemma_strategies_agree_on_funded_accounts(
    wallets: Seq<Address>,
    replies: Seq<Result<u64, NetworkError>>,
    accounts: Seq<Option<AccountRecord>>,
)
    requires
        replies.len() == wallets.len(),
        accounts.len() == wallets.len(),
        forall|i: int|
            0 <= i < wallets.len() ==> ((#[trigger] accounts[i]) matches Some(record)
                && replies[i] matches Ok(lamports) && lamports == record.lamports),
    ensures
        all_ok(replies),
        per_address(wallets, replies) == batched(wallets, accounts),
{
    assert forall|i: int| 0 <= i < replies.len() implies (#[trigger] replies[i]) is Ok by {
        assert(accounts[i] is Some);
    }
    assert(per_address(wallets, replies) =~= batched(wallets, accounts));
}

} // verus!
