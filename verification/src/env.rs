use vstd::prelude::*;
use crate::account::AccountId;
use crate::contract::ResultNum;
use crate::pallet::Event;
use crate::storage::StorageMap;

verus! {

/// The execution environment the host and the deployed contract share for
/// the length of one transaction: the storage and balance collaborators, the
/// two event records, and the identity the contract acts under.
///
/// Execution is single-threaded and runs each call to completion, so one
/// value of this type, handed along `&mut`, is the whole world a call can
/// touch; every contract entry point and every extrinsic states over it
/// exactly which part it changes.
pub struct CustomEnvironment {
    /// The storage collaborator the extrinsics write: one stored value per
    /// account identity.
    pub contract_entry: StorageMap,
    /// The balance ledger the transfer handler moves value in.
    pub balances: StorageMap,
    /// The notifications the host side has emitted, in order.
    pub runtime_events: Vec<Event>,
    /// The events the contract side has emitted, in order.
    pub contract_events: Vec<ResultNum>,
    /// The account the deployed contract lives under: the caller identity of
    /// every chain-extension call it makes.
    pub contract_account: AccountId,
}

impl CustomEnvironment {
    /// Both storage collaborators keep their representation invariant.
    pub open spec fn wf(self) -> bool {
        self.contract_entry.wf() && self.balances.wf()
    }

    /// The stored-value map, by account identity.
    pub open spec fn storage(self) -> Map<u32, u32> {
        self.contract_entry.as_map()
    }

    /// The balance map, by account identity; an absent account holds zero.
    pub open spec fn balance_map(self) -> Map<u32, u32> {
        self.balances.as_map()
    }

    /// The host-side notifications emitted so far.
    pub open spec fn runtime_event_seq(self) -> Seq<Event> {
        self.runtime_events@
    }

    /// The contract-side events emitted so far.
    pub open spec fn contract_event_seq(self) -> Seq<ResultNum> {
        self.contract_events@
    }

    /// A fresh environment: empty storage, empty ledger, no events, the
    /// contract deployed under `contract_account`.
    pub fn new(contract_account: AccountId) -> (r: CustomEnvironment)
        ensures
            r.wf(),
            r.storage() == Map::<u32, u32>::empty(),
            r.balance_map() == Map::<u32, u32>::empty(),
            r.runtime_event_seq() == Seq::<Event>::empty(),
            r.contract_event_seq() == Seq::<ResultNum>::empty(),
            r.contract_account == contract_account,
    {
        CustomEnvironment {
            contract_entry: StorageMap::new(),
            balances: StorageMap::new(),
            runtime_events: Vec::new(),
            contract_events: Vec::new(),
            contract_account,
        }
    }

    /// Endow an account: set its ledger balance outright.  This stands in
    /// for whatever funded the account before the transaction under
    /// consideration began.
    pub fn set_balance(&mut self, who: AccountId, amount: u32)
        requires
            old(self).wf(),
        ensures
            final(self).wf(),
            final(self).balance_map() == old(self).balance_map().insert(who.id, amount),
            final(self).storage() == old(self).storage(),
            final(self).runtime_event_seq() == old(self).runtime_event_seq(),
            final(self).contract_event_seq() == old(self).contract_event_seq(),
            final(self).contract_account == old(self).contract_account,
    {
        self.balances.insert(who.id, amount);
    }
}

} // verus!
