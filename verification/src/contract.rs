//! The treasury's state and its operations.

use vstd::prelude::*;
use soroban_sdk::{Address, Env, Vec};
use crate::error::ContractError;
use crate::host::{
    empty_ledger, is_contract_address, ledger_entries, ledger_is_empty, ledger_push_front,
    names_contract, query_balance,
};
use crate::storage_types::Supporter;

verus! {

/// A movement of tokens that the host is to carry out.
#[derive(Clone, Debug, PartialEq, Eq)]
pub struct Transfer {
    /// The token contract that moves the amount.
    pub token: Address,
    /// The address that pays.
    pub from: Address,
    /// The address that is paid.
    pub to: Address,
    /// How much, in the token's smallest unit.
    pub amount: i128,
}

/// A question to a token contract: how much of the token `holder` has.
#[derive(Clone, Debug, PartialEq, Eq)]
pub struct BalanceQuery {
    /// The token contract that is asked.
    pub token: Address,
    /// The address whose balance is asked for.
    pub holder: Address,
}

/// The supporters that a host-kept ledger stands for, most recent first.
pub open spec fn supporters_of(entries: Seq<(Address, i128)>) -> Seq<Supporter> {
    Seq::new(entries.len(), |i: int| Supporter { address: entries[i].0, amount: entries[i].1 })
}

/// The mathematical model of a treasury.
pub struct ContractView {
    /// The address that may withdraw.
    pub owner: Address,
    /// The token contract that contributions are paid in.
    pub token_address: Address,
    /// The contributions, most recent first.
    pub supporters: Seq<Supporter>,
}

/// The answer to a balance query: the amount, where the token contract gave
/// one.
pub open spec fn balance_reply(reply: Option<i128>) -> Result<i128, ContractError> {
    match reply {
        Some(balance) => Ok(balance),
        None => Err(ContractError::FailedToGetBalance),
    }
}

impl ContractView {
    /// The treasury as it is constructed: nobody has contributed yet.
    pub open spec fn created(owner: Address, token_address: Address) -> ContractView {
        ContractView { owner, token_address, supporters: Seq::empty() }
    }

    /// What becomes of a contribution of `amount` by `from` to the treasury
    /// at `contract_id`: a transfer to the treasury, or a refusal where the
    /// amount is not positive.
    pub open spec fn contribution(self, contract_id: Address, from: Address, amount: i128) -> Result<
        Transfer,
        ContractError,
    > {
        if amount <= 0 {
            Err(ContractError::InvalidAmount)
        } else {
            Ok(Transfer { token: self.token_address, from, to: contract_id, amount })
        }
    }

    /// The treasury once `supporter` is recorded: the new entry comes first.
    /// An entry whose amount is not positive is not recorded.
    pub open spec fn record(self, supporter: Supporter) -> ContractView {
        if supporter.amount <= 0 {
            self
        } else {
            ContractView { supporters: seq![supporter] + self.supporters, ..self }
        }
    }

    /// The treasury once each of `contributions` is recorded, in their order.
    pub open spec fn record_all(self, contributions: Seq<Supporter>) -> ContractView
        decreases contributions.len(),
    {
        if contributions.len() == 0 {
            self
        } else {
            self.record_all(contributions.drop_last()).record(contributions.last())
        }
    }

    /// The answer to a query for the supporters: the ledger, or a refusal
    /// where it is empty.
    pub open spec fn supporters_reply(self) -> Result<Seq<Supporter>, ContractError> {
        if self.supporters.len() == 0 {
            Err(ContractError::NoSupporters)
        } else {
            Ok(self.supporters)
        }
    }

    /// The question for the balance of the treasury at `contract_id`: it goes
    /// to the treasury's token, and asks for what the treasury itself holds.
    pub open spec fn balance_query(self, contract_id: Address) -> BalanceQuery {
        BalanceQuery { token: self.token_address, holder: contract_id }
    }

    /// What becomes of a withdrawal from the treasury at `contract_id`, given
    /// the answer to the query for its balance: a transfer of that whole
    /// balance to the owner, or a refusal where the query failed.
    pub open spec fn payout(self, contract_id: Address, reply: Option<i128>) -> Result<
        Transfer,
        ContractError,
    > {
        match reply {
            Some(balance) => Ok(
                Transfer { token: self.token_address, from: contract_id, to: self.owner, amount: balance },
            ),
            None => Err(ContractError::FailedToGetBalance),
        }
    }

    /// Every recorded amount is positive.
    pub open spec fn amounts_positive(self) -> bool {
        forall|i: int| 0 <= i < self.supporters.len() ==> (#[trigger] self.supporters[i]).amount > 0
    }
}

/// The treasury: who owns it, which token it takes, and who has contributed.
pub struct Contract {
    owner: Address,
    token_address: Address,
    supporters: Vec<(Address, i128)>,
}

impl View for Contract {
    type V = ContractView;

    closed spec fn view(&self) -> ContractView {
        ContractView {
            owner: self.owner,
            token_address: self.token_address,
            supporters: supporters_of(ledger_entries(self.supporters)),
        }
    }
}

impl Contract {
    /// A new treasury for `owner`, paid in the token at `token_address`.
    /// Nobody has contributed yet.
    pub fn __constructor(env: &Env, owner: Address, token_address: Address) -> (contract: Contract)
        ensures
            contract@ == ContractView::created(owner, token_address),
    {
        let supporters = empty_ledger(env);
        assert(supporters_of(ledger_entries(supporters)) =~= Seq::<Supporter>::empty());
        Contract { owner, token_address, supporters }
    }

    /// The address that may withdraw.
    pub fn get_owner(&self) -> (owner: Address)
        ensures
            owner == self@.owner,
    {
        self.owner.clone()
    }

    /// The token contract that contributions are paid in.
    pub fn get_token_address(&self) -> (token_address: Address)
        ensures
            token_address == self@.token_address,
    {
        self.token_address.clone()
    }

    /// The treasury as the host has kept it: the owner and the token of its
    /// construction, and the ledger, which is empty where none was stored yet.
    pub fn from_stored(
        env: &Env,
        owner: Address,
        token_address: Address,
        supporters: Option<Vec<(Address, i128)>>,
    ) -> (contract: Contract)
        ensures
            contract@.owner == owner,
            contract@.token_address == token_address,
            contract@.supporters == match supporters {
                Some(ledger) => supporters_of(ledger_entries(ledger)),
                None => Seq::<Supporter>::empty(),
            },
    {
        let supporters = match supporters {
            Some(ledger) => ledger,
            None => {
                let ledger = empty_ledger(env);
                assert(supporters_of(ledger_entries(ledger)) =~= Seq::<Supporter>::empty());
                ledger
            },
        };
        Contract { owner, token_address, supporters }
    }

    /// The ledger as the host keeps it, for storing. Unlike
    /// [`Contract::get_supporters`] this hands out an empty ledger too.
    pub fn supporters(&self) -> (ledger: &Vec<(Address, i128)>)
        ensures
            supporters_of(ledger_entries(*ledger)) == self@.supporters,
    {
        &self.supporters
    }

    /// The question for the treasury's own balance: the treasury's token is
    /// asked, and the holder is the treasury, not its owner and not a
    /// supporter. `contract_id` is the treasury's own address.
    pub fn balance_query(&self, contract_id: &Address) -> (query: BalanceQuery)
        ensures
            query == self@.balance_query(*contract_id),
    {
        BalanceQuery { token: self.token_address.clone(), holder: contract_id.clone() }
    }

    /// The treasury's balance at the token contract. `contract_id` is the
    /// treasury's own address. Anyone may ask.
    ///
    /// The question is that of [`Contract::balance_query`]. Where the token
    /// address is not a contract's, the query fails without a call.
    /// Otherwise the token contract is asked, and what it answers is not
    /// known beforehand: whatever it is, [`balance_from_reply`] says what is
    /// returned for it.
    pub fn get_balance(&self, env: &Env, contract_id: &Address) -> (balance: Result<i128, ContractError>)
        ensures
            !names_contract(self@.token_address) ==> balance == Err::<i128, ContractError>(
                ContractError::FailedToGetBalance,
            ),
            balance matches Err(error) ==> error == ContractError::FailedToGetBalance,
    {
        let query = self.balance_query(contract_id);
        let reply = ask_balance(env, &query);
        balance_from_reply(reply)
    }

    /// The ledger, most recent contribution first. An empty ledger is
    /// refused, not returned.
    pub fn get_supporters(&self) -> (supporters: Result<Vec<(Address, i128)>, ContractError>)
        ensures
            match supporters {
                Ok(ledger) => self@.supporters_reply() == Ok::<Seq<Supporter>, ContractError>(
                    supporters_of(ledger_entries(ledger)),
                ),
                Err(error) => self@.supporters_reply() == Err::<Seq<Supporter>, ContractError>(error),
            },
    {
        if ledger_is_empty(&self.supporters) {
            return Err(ContractError::NoSupporters);
        }
        Ok(self.supporters.clone())
    }

    /// Decides on a contribution of `amount` by `from`, before any token
    /// moves. The host must have checked the authorization of `from` before.
    /// `contract_id` is the treasury's own address.
    ///
    /// An amount that is not positive is refused. Otherwise the result is the
    /// transfer that pays the contribution in. The treasury itself is
    /// unchanged: once the host has carried the transfer out,
    /// [`Contract::record_supporter`] enters the contribution in the ledger.
    pub fn buy_coffee(&self, contract_id: &Address, from: &Address, amount: i128) -> (transfer: Result<
        Transfer,
        ContractError,
    >)
        ensures
            transfer == self@.contribution(*contract_id, *from, amount),
    {
        if amount <= 0 {
            return Err(ContractError::InvalidAmount);
        }
        Ok(
            Transfer {
                token: self.token_address.clone(),
                from: from.clone(),
                to: contract_id.clone(),
                amount,
            },
        )
    }

    /// Enters a contribution whose transfer went through: it becomes the
    /// ledger's first entry, and the entries before it follow unchanged. An
    /// entry whose amount is not positive is refused and nothing changes.
    pub fn record_supporter(&mut self, supporter: Supporter) -> (recorded: Result<(), ContractError>)
        ensures
            final(self)@ == old(self)@.record(supporter),
            recorded == if supporter.amount > 0 {
                Ok::<(), ContractError>(())
            } else {
                Err::<(), ContractError>(ContractError::InvalidAmount)
            },
    {
        if supporter.amount <= 0 {
            return Err(ContractError::InvalidAmount);
        }
        let ghost before = ledger_entries(self.supporters);
        let entry = (supporter.address, supporter.amount);
        ledger_push_front(&mut self.supporters, entry);
        assert(supporters_of(seq![entry] + before) =~= seq![supporter] + supporters_of(before));
        Ok(())
    }

    /// Decides on a withdrawal. Only the owner may ask for one: the host must
    /// have checked the authorization of [`Contract::get_owner`] before.
    /// `contract_id` is the treasury's own address.
    ///
    /// The treasury asks the token contract for its own balance. Where that
    /// fails the withdrawal is refused. Otherwise the result is the transfer
    /// of the whole balance to the owner. The ledger stays as it is.
    ///
    /// The question is that of [`Contract::balance_query`]. Where the token
    /// address is not a contract's, the query fails without a call.
    /// Otherwise what the token contract answers is not known beforehand:
    /// whatever it is, [`Contract::payout`] says what is returned for it.
    pub fn withdraw(&self, env: &Env, contract_id: &Address) -> (transfer: Result<Transfer, ContractError>)
        ensures
            !names_contract(self@.token_address) ==> transfer == Err::<Transfer, ContractError>(
                ContractError::FailedToGetBalance,
            ),
            match transfer {
                Ok(payment) => {
                    &&& payment.token == self@.token_address
                    &&& payment.from == *contract_id
                    &&& payment.to == self@.owner
                },
                Err(error) => error == ContractError::FailedToGetBalance,
            },
    {
        let query = self.balance_query(contract_id);
        let reply = ask_balance(env, &query);
        self.payout(contract_id, reply)
    }

    /// The withdrawal that follows from the token contract's answer to the
    /// balance query: the whole balance goes to the owner, or the withdrawal
    /// is refused where there was no answer.
    pub fn payout(&self, contract_id: &Address, reply: Option<i128>) -> (transfer: Result<
        Transfer,
        ContractError,
    >)
        ensures
            transfer == self@.payout(*contract_id, reply),
    {
        match reply {
            Some(balance) => Ok(
                Transfer {
                    token: self.token_address.clone(),
                    from: contract_id.clone(),
                    to: self.owner.clone(),
                    amount: balance,
                },
            ),
            None => Err(ContractError::FailedToGetBalance),
        }
    }
}

/// Puts `query` to the token contract that it names. There is no answer
/// where the token address is not a contract's: then nothing is asked.
fn ask_balance(env: &Env, query: &BalanceQuery) -> (reply: Option<i128>)
    ensures
        !names_contract(query.token) ==> reply is None,
{
    if is_contract_address(&query.token) {
        query_balance(env, query)
    } else {
        None
    }
}

/// What a balance query comes to: the amount that the token contract gave, or
/// a refusal where it gave none.
pub fn balance_from_reply(reply: Option<i128>) -> (balance: Result<i128, ContractError>)
    ensures
        balance == balance_reply(reply),
{
    match reply {
        Some(amount) => Ok(amount),
        None => Err(ContractError::FailedToGetBalance),
    }
}

} // verus!
