//! What holds of the treasury over its whole life, proved from the
//! definitions in [`crate::contract`].

use vstd::prelude::*;
use soroban_sdk::Address;
use crate::contract::{ContractView, Transfer};
use crate::error::ContractError;
use crate::storage_types::Supporter;

verus! {

/// A contribution that is not positive is refused as an invalid amount: no
/// transfer comes of it, and recording it leaves the treasury as it was.
pub proof fn lemma_invalid_amount_changes_nothing(
    treasury: ContractView,
    contract_id: Address,
    from: Address,
    amount: i128,
)
    requires
        amount <= 0,
    ensures
        treasury.contribution(contract_id, from, amount) == Err::<Transfer, ContractError>(
            ContractError::InvalidAmount,
        ),
        treasury.record(Supporter { address: from, amount }) == treasury,
{
}

/// A positive contribution is accepted: it is paid by a transfer of exactly
/// that amount from the contributor to the treasury, and once recorded it is
/// the ledger's first entry, with the earlier entries behind it. The ledger
/// is longer by one.
pub proof fn lemma_contribution_is_recorded_first(
    treasury: ContractView,
    contract_id: Address,
    from: Address,
    amount: i128,
)
    requires
        amount > 0,
    ensures
        treasury.contribution(contract_id, from, amount) == Ok::<Transfer, ContractError>(
            Transfer { token: treasury.token_address, from, to: contract_id, amount },
        ),
        treasury.record(Supporter { address: from, amount }).supporters.len()
            == treasury.supporters.len() + 1,
        treasury.record(Supporter { address: from, amount }).supporters[0] == (Supporter {
            address: from,
            amount,
        }),
        treasury.record(Supporter { address: from, amount }).supporters.skip(1)
            == treasury.supporters,
{
    let after = treasury.record(Supporter { address: from, amount });
    assert(after.supporters.skip(1) =~= treasury.supporters);
}

/// The query for the supporters is refused if and only if the ledger is
/// empty, and then for want of supporters. Otherwise it answers with the
/// whole ledger.
pub proof fn lemma_supporters_refused_iff_empty(treasury: ContractView)
    ensures
        treasury.supporters.len() == 0 <==> treasury.supporters_reply() is Err,
        treasury.supporters_reply() is Err ==> treasury.supporters_reply() == Err::<
            Seq<Supporter>,
            ContractError,
        >(ContractError::NoSupporters),
        treasury.supporters_reply() is Ok ==> treasury.supporters_reply() == Ok::<
            Seq<Supporter>,
            ContractError,
        >(treasury.supporters),
{
}

/// The ledger is kept most recent first: after a run of positive
/// contributions it holds them in the reverse of the order in which they were
/// recorded, in front of the entries it had before.
pub proof fn lemma_ledger_is_most_recent_first(treasury: ContractView, contributions: Seq<Supporter>)
    requires
        forall|i: int| 0 <= i < contributions.len() ==> (#[trigger] contributions[i]).amount > 0,
    ensures
        treasury.record_all(contributions).supporters == contributions.reverse()
            + treasury.supporters,
    decreases contributions.len(),
{
    if contributions.len() == 0 {
        assert(contributions.reverse() + treasury.supporters =~= treasury.supporters);
    } else {
        let earlier = contributions.drop_last();
        let latest = contributions.last();
        lemma_ledger_is_most_recent_first(treasury, earlier);
        assert(latest.amount > 0);
        assert(seq![latest] + (earlier.reverse() + treasury.supporters) =~= contributions.reverse()
            + treasury.supporters);
    }
}

/// The ledger only grows: whatever is recorded, the entries that were there
/// stay, in their order, at its end.
pub proof fn lemma_ledger_is_append_only(treasury: ContractView, contributions: Seq<Supporter>)
    ensures
        treasury.record_all(contributions).supporters.len() >= treasury.supporters.len(),
        treasury.record_all(contributions).supporters.skip(
            treasury.record_all(contributions).supporters.len() - treasury.supporters.len(),
        ) == treasury.supporters,
    decreases contributions.len(),
{
    if contributions.len() == 0 {
        assert(treasury.supporters.skip(0) =~= treasury.supporters);
    } else {
        let before = treasury.record_all(contributions.drop_last());
        let after = before.record(contributions.last());
        lemma_ledger_is_append_only(treasury, contributions.drop_last());
        let kept = before.supporters.len() - treasury.supporters.len();
        if contributions.last().amount > 0 {
            assert(after.supporters.skip(kept + 1) =~= before.supporters.skip(kept));
        }
    }
}

/// The owner and the token are those given at construction, and nothing that
/// is recorded afterwards changes either.
pub proof fn lemma_owner_and_token_are_fixed(
    owner: Address,
    token_address: Address,
    contributions: Seq<Supporter>,
)
    ensures
        ContractView::created(owner, token_address).owner == owner,
        ContractView::created(owner, token_address).token_address == token_address,
        ContractView::created(owner, token_address).record_all(contributions).owner == owner,
        ContractView::created(owner, token_address).record_all(contributions).token_address
            == token_address,
{
    lemma_recording_keeps_owner_and_token(ContractView::created(owner, token_address), contributions);
}

/// Recording contributions changes neither the owner nor the token.
pub proof fn lemma_recording_keeps_owner_and_token(treasury: ContractView, contributions: Seq<Supporter>)
    ensures
        treasury.record_all(contributions).owner == treasury.owner,
        treasury.record_all(contributions).token_address == treasury.token_address,
    decreases contributions.len(),
{
    if contributions.len() > 0 {
        lemma_recording_keeps_owner_and_token(treasury, contributions.drop_last());
    }
}

/// Every amount in the ledger is positive: this holds of a new treasury, and
/// recording keeps it.
pub proof fn lemma_recorded_amounts_are_positive(treasury: ContractView, contributions: Seq<Supporter>)
    requires
        treasury.amounts_positive(),
    ensures
        treasury.record_all(contributions).amounts_positive(),
    decreases contributions.len(),
{
    if contributions.len() > 0 {
        lemma_recorded_amounts_are_positive(treasury, contributions.drop_last());
        let before = treasury.record_all(contributions.drop_last());
        let after = before.record(contributions.last());
        assert forall|i: int| 0 <= i < after.supporters.len() implies (
        #[trigger] after.supporters[i]).amount > 0 by {
            if contributions.last().amount > 0 && i > 0 {
                assert(after.supporters[i] == before.supporters[i - 1]);
            }
        }
    }
}

/// A new treasury has no recorded amount that is not positive.
pub proof fn lemma_new_treasury_amounts_are_positive(owner: Address, token_address: Address)
    ensures
        ContractView::created(owner, token_address).amounts_positive(),
{
}

/// A withdrawal pays out exactly the balance that the token contract
/// reported, from the treasury to its owner and to nobody else, and is
/// refused only where no balance was reported.
pub proof fn lemma_withdrawal_pays_the_whole_balance_to_the_owner(
    treasury: ContractView,
    contract_id: Address,
    reply: Option<i128>,
)
    ensures
        reply matches Some(balance) ==> treasury.payout(contract_id, reply) == Ok::<
            Transfer,
            ContractError,
        >(
            Transfer {
                token: treasury.token_address,
                from: contract_id,
                to: treasury.owner,
                amount: balance,
            },
        ),
        reply is None <==> treasury.payout(contract_id, reply) == Err::<Transfer, ContractError>(
            ContractError::FailedToGetBalance,
        ),
{
}

} // verus!
