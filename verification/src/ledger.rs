//! What the token ledger is taken to do with the transfers it is handed.
//!
//! The ledger itself lies outside this library. The model here is the part
//! of its behaviour that the platform relies on: a transfer moves its amount
//! from one balance to another, a transfer that the source cannot cover is
//! refused, and a list of transfers is applied as a whole or not at all.
//! Balances are natural numbers: the ledger's own upper bound on a balance
//! is not modelled.

use vstd::prelude::*;
use crate::token::TransferChecked;

verus! {

/// Whether the ledger accepts `transfer`: both accounts exist and the
/// source covers the amount.
pub open spec fn transfer_accepted(balances: Map<Seq<u8>, nat>, transfer: TransferChecked) -> bool {
    &&& balances.dom().contains(transfer.from@)
    &&& balances.dom().contains(transfer.to@)
    &&& transfer.amount <= balances[transfer.from@]
}

/// The balances after `transfer`: the source debited, then the destination
/// credited. A transfer from an account to itself changes nothing.
pub open spec fn apply_transfer(balances: Map<Seq<u8>, nat>, transfer: TransferChecked) -> Map<Seq<u8>, nat> {
    let debited = balances.insert(transfer.from@, (balances[transfer.from@] - transfer.amount) as nat);
    debited.insert(transfer.to@, (debited[transfer.to@] + transfer.amount) as nat)
}

/// The balances after all of `transfers`, in order, or `None` where the
/// ledger refuses one of them: then none is applied.
pub open spec fn settle(balances: Map<Seq<u8>, nat>, transfers: Seq<TransferChecked>) -> Option<Map<Seq<u8>, nat>>
    decreases transfers.len(),
{
    if transfers.len() == 0 {
        Some(balances)
    } else if !transfer_accepted(balances, transfers[0]) {
        None
    } else {
        settle(apply_transfer(balances, transfers[0]), transfers.drop_first())
    }
}

/// No transfers leave every balance as it was.
pub proof fn lemma_settle_nothing(balances: Map<Seq<u8>, nat>)
    ensures
        settle(balances, Seq::empty()) == Some(balances),
{
}

/// A single accepted transfer settles to its application.
pub proof fn lemma_settle_one(balances: Map<Seq<u8>, nat>, transfer: TransferChecked)
    ensures
        settle(balances, seq![transfer]) == if transfer_accepted(balances, transfer) {
            Some(apply_transfer(balances, transfer))
        } else {
            None
        },
{
    let transfers = seq![transfer];
    assert(transfers[0] == transfer);
    assert(transfers.drop_first() =~= Seq::empty());
    if transfer_accepted(balances, transfer) {
        assert(settle(apply_transfer(balances, transfer), Seq::empty()) == Some(
            apply_transfer(balances, transfer),
        ));
    }
}

/// Two transfers settle when the first is accepted and the second is
/// accepted on what the first leaves.
pub proof fn lemma_settle_two(balances: Map<Seq<u8>, nat>, first: TransferChecked, second: TransferChecked)
    ensures
        settle(balances, seq![first, second]) == if transfer_accepted(balances, first)
            && transfer_accepted(apply_transfer(balances, first), second) {
            Some(apply_transfer(apply_transfer(balances, first), second))
        } else {
            None
        },
{
    let transfers = seq![first, second];
    assert(transfers[0] == first);
    assert(transfers.drop_first() =~= seq![second]);
    if transfer_accepted(balances, first) {
        lemma_settle_one(apply_transfer(balances, first), second);
    }
}

/// A transfer moves value and makes none: between two different accounts
/// the sum of the two balances is kept, and no third balance changes.
pub proof fn lemma_transfer_conserves(balances: Map<Seq<u8>, nat>, transfer: TransferChecked, other: Seq<u8>)
    requires
        transfer_accepted(balances, transfer),
        balances.dom().contains(other),
    ensures
        apply_transfer(balances, transfer).dom() == balances.dom(),
        transfer.from@ != transfer.to@ ==> {
            &&& apply_transfer(balances, transfer)[transfer.from@] == balances[transfer.from@] - transfer.amount
            &&& apply_transfer(balances, transfer)[transfer.to@] == balances[transfer.to@] + transfer.amount
        },
        transfer.from@ == transfer.to@ ==> apply_transfer(balances, transfer) == balances,
        other != transfer.from@ && other != transfer.to@ ==> apply_transfer(balances, transfer)[other]
            == balances[other],
{
    assert(apply_transfer(balances, transfer).dom() =~= balances.dom());
    if transfer.from@ == transfer.to@ {
        assert(apply_transfer(balances, transfer) =~= balances);
    }
}

} // verus!
