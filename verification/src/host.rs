//! The boundary to the Soroban host.
//!
//! Addresses, ledgers and the environment are handles to objects that the
//! host keeps. Nothing in this module is proved: each item states what the
//! host's SDK does, and the rest of the crate is proved from these statements.
//!
//! The host ends an invocation, whatever is called, once the invocation has
//! spent its budget, reaches for a ledger entry outside the footprint that its
//! transaction declared, or meets a fault of the host's own. These are
//! conditions of the transaction, not of the values handed to a call, and
//! the statements here are about calls that return.

use vstd::prelude::*;
use soroban_sdk::{Address, Env, Vec};
use soroban_sdk::token::TokenClient;
use soroban_sdk::address_payload::AddressPayload;
use crate::contract::BalanceQuery;

verus! {

/// `soroban_sdk::Env`: the handle to the running host.
#[verifier::external_type_specification]
#[verifier::external_body]
pub struct ExEnv(soroban_sdk::Env);

/// `soroban_sdk::Address`: an account or a contract, as the host knows it.
#[verifier::external_type_specification]
#[verifier::external_body]
pub struct ExAddress(soroban_sdk::Address);

/// `soroban_sdk::Vec`: a sequence that the host keeps.
#[verifier::external_type_specification]
#[verifier::external_body]
#[verifier::reject_recursive_types(T)]
pub struct ExVec<T>(soroban_sdk::Vec<T>);

/// The items of a host-kept ledger, first to last. A host object never
/// changes once it is made, so the items are a function of the handle.
pub uninterp spec fn ledger_entries(ledger: Vec<(Address, i128)>) -> Seq<(Address, i128)>;

/// `Address::clone`: the copy names the same address.
pub assume_specification[ <Address as Clone>::clone ](address: &Address) -> (copy: Address)
    ensures
        copy == *address,
;

/// `Vec::clone`: the copy is a handle to the same host object.
pub assume_specification<T>[ <Vec<T> as Clone>::clone ](ledger: &Vec<T>) -> (copy: Vec<T>)
    ensures
        copy == *ledger,
;

/// `Vec::new`: a ledger without items.
#[verifier::external_body]
pub(crate) fn empty_ledger(env: &Env) -> (ledger: Vec<(Address, i128)>)
    ensures
        ledger_entries(ledger) == Seq::<(Address, i128)>::empty(),
{
    Vec::new(env)
}

/// `Vec::is_empty`: whether the ledger has no items.
#[verifier::external_body]
pub(crate) fn ledger_is_empty(ledger: &Vec<(Address, i128)>) -> (empty: bool)
    ensures
        empty == (ledger_entries(*ledger).len() == 0),
{
    ledger.is_empty()
}

/// `Vec::push_front`: the ledger grows by one item, which comes first; the
/// items it had follow in their order.
#[verifier::external_body]
pub(crate) fn ledger_push_front(ledger: &mut Vec<(Address, i128)>, entry: (Address, i128))
    ensures
        ledger_entries(*final(ledger)) == seq![entry] + ledger_entries(*old(ledger)),
{
    ledger.push_front(entry)
}

/// Whether the address is a contract's, and not an account's or any other
/// kind of address. The kind is part of the address itself.
pub uninterp spec fn names_contract(address: Address) -> bool;

/// `Address::to_payload`: what the address holds, of which only the kind is
/// kept. A contract's address holds the contract's hash, an account's holds
/// the account's key, and an address of a kind that the SDK does not know
/// holds neither.
#[verifier::external_body]
pub(crate) fn is_contract_address(address: &Address) -> (yes: bool)
    ensures
        yes == names_contract(*address),
{
    match address.to_payload() {
        Some(AddressPayload::ContractIdHash(_)) => true,
        Some(AddressPayload::AccountIdPublicKeyEd25519(_)) => false,
        None => false,
    }
}

/// `TokenClient::try_balance`: puts `query` to the contract at its token
/// address, for the balance of its holder. The answer is `None` when the call
/// failed in the contract, or no contract is there, or what came back was no
/// amount. Nothing is claimed of the amount: it is whatever the token
/// contract says at the time.
///
/// The host looks up the contract before it makes the call, and ends the
/// invocation if the token address is not a contract's: such a query is left
/// out.
#[verifier::external_body]
pub(crate) fn query_balance(env: &Env, query: &BalanceQuery) -> (reply: Option<i128>)
    requires
        names_contract(query.token),
{
    match TokenClient::new(env, &query.token).try_balance(&query.holder) {
        Ok(Ok(balance)) => Some(balance),
        Ok(Err(_)) => None,
        Err(_) => None,
    }
}

} // verus!
