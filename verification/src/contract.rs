use vstd::prelude::*;
use crate::account::AccountId;
use crate::dispatcher::can_transfer;
use crate::dispatcher::transferred;
use crate::env::CustomEnvironment;
use crate::extension::MyExtension;
use crate::pallet::Event;
use crate::status::ContractError;

verus! {

/// The one event the contract emits: the number an entry point handled.
#[derive(Clone, Copy, Debug, PartialEq, Eq, Structural)]
pub struct ResultNum {
    pub number: u32,
}

/// The deployed contract: its whole storage is one stored number.  Its
/// entry points demonstrate both directions of the bridge — `set_value` is
/// reached from the host through a bare call, and `store_in_runtime` and
/// `extended_transfer` reach back into the host through the chain
/// extension.
#[derive(Clone, Copy, Debug, PartialEq, Eq, Structural)]
pub struct RuntimeInterface {
    pub stored_number: u32,
}

impl RuntimeInterface {
    /// A fresh contract instance holding zero.
    pub fn default() -> (r: RuntimeInterface)
        ensures
            r.stored_number == 0,
    {
        RuntimeInterface { stored_number: 0 }
    }

    /// Read the stored value, announcing it as a contract event.
    pub fn get_value(&mut self, env: &mut CustomEnvironment) -> (r: u32)
        requires
            old(env).wf(),
        ensures
            final(env).wf(),
            r == old(self).stored_number,
            *final(self) == *old(self),
            final(env).contract_event_seq() == old(env).contract_event_seq().push(
                ResultNum { number: old(self).stored_number },
            ),
            final(env).storage() == old(env).storage(),
            final(env).balance_map() == old(env).balance_map(),
            final(env).runtime_event_seq() == old(env).runtime_event_seq(),
            final(env).contract_account == old(env).contract_account,
    {
        env.contract_events.push(ResultNum { number: self.stored_number });
        self.stored_number
    }

    /// Overwrite the stored value, announcing the new value as a contract
    /// event.  This is the entry point the bare-call bridge reaches under
    /// its fixed selector; it succeeds on every input.
    pub fn set_value(&mut self, value: u32, env: &mut CustomEnvironment) -> (r: Result<
        (),
        ContractError,
    >)
        requires
            old(env).wf(),
        ensures
            final(env).wf(),
            r is Ok,
            final(self).stored_number == value,
            final(env).contract_event_seq() == old(env).contract_event_seq().push(
                ResultNum { number: value },
            ),
            final(env).storage() == old(env).storage(),
            final(env).balance_map() == old(env).balance_map(),
            final(env).runtime_event_seq() == old(env).runtime_event_seq(),
            final(env).contract_account == old(env).contract_account,
    {
        self.stored_number = value;
        env.contract_events.push(ResultNum { number: value });
        Ok(())
    }

    /// Hand `value` to the host through chain-extension function id `1`,
    /// which stores it under this contract's identity, then announce the
    /// value as a contract event.  The handler accepts every value, so the
    /// call always succeeds.
    pub fn store_in_runtime(&mut self, value: u32, env: &mut CustomEnvironment) -> (r: Result<
        (),
        ContractError,
    >)
        requires
            old(env).wf(),
        ensures
            final(env).wf(),
            r is Ok,
            *final(self) == *old(self),
            final(env).storage() == old(env).storage().insert(
                old(env).contract_account.id,
                value,
            ),
            final(env).runtime_event_seq() == old(env).runtime_event_seq().push(
                Event::CalledPalletFromContract(value),
            ),
            final(env).contract_event_seq() == old(env).contract_event_seq().push(
                ResultNum { number: value },
            ),
            final(env).balance_map() == old(env).balance_map(),
            final(env).contract_account == old(env).contract_account,
    {
        match env.do_store_in_runtime(value) {
            Ok(_) => {
                env.contract_events.push(ResultNum { number: value });
                Ok(())
            },
            Err(e) => {
                proof {
                    assert(false);
                }
                Err(e)
            },
        }
    }

    /// Ask the host, through chain-extension function id `2`, to move
    /// `amount` from this contract's account to `recipient`, then announce
    /// the amount as a contract event.  Where the ledger cannot cover the
    /// move the typed error comes back and nothing — no balance, no event —
    /// has changed.
    pub fn extended_transfer(
        &mut self,
        amount: u32,
        recipient: AccountId,
        env: &mut CustomEnvironment,
    ) -> (r: Result<(), ContractError>)
        requires
            old(env).wf(),
        ensures
            final(env).wf(),
            *final(self) == *old(self),
            final(env).storage() == old(env).storage(),
            final(env).runtime_event_seq() == old(env).runtime_event_seq(),
            final(env).contract_account == old(env).contract_account,
            can_transfer(
                old(env).balance_map(),
                old(env).contract_account.id,
                recipient.id,
                amount,
            ) ==> r is Ok && final(env).balance_map() == transferred(
                old(env).balance_map(),
                old(env).contract_account.id,
                recipient.id,
                amount,
            ) && final(env).contract_event_seq() == old(env).contract_event_seq().push(
                ResultNum { number: amount },
            ),
            !can_transfer(
                old(env).balance_map(),
                old(env).contract_account.id,
                recipient.id,
                amount,
            ) ==> r == Err::<(), ContractError>(ContractError::FailToCallRuntime)
                && final(env).balance_map() == old(env).balance_map()
                && final(env).contract_event_seq() == old(env).contract_event_seq(),
    {
        match env.do_balance_transfer(amount, recipient) {
            Ok(_) => {
                env.contract_events.push(ResultNum { number: amount });
                Ok(())
            },
            Err(e) => Err(e),
        }
    }
}

} // verus!
