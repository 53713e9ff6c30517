use vstd::prelude::*;
use crate::account::AccountId;
use crate::codec::decode_u32;
use crate::codec::encode_pair;
use crate::codec::encode_u32;
use crate::codec::lemma_pair_codec_round_trip;
use crate::codec::lemma_u32_codec_round_trip;
use crate::codec::pair_le;
use crate::codec::u32_le;
use crate::dispatcher::can_transfer;
use crate::dispatcher::dispatch;
use crate::dispatcher::transferred;
use crate::dispatcher::FUNC_ID_BALANCE_TRANSFER;
use crate::dispatcher::FUNC_ID_STORE_IN_RUNTIME;
use crate::env::CustomEnvironment;
use crate::pallet::Event;
use crate::status::ContractError;
use crate::contract::ResultNum;

verus! {

/// The typed chain-extension interface contract code calls: each method
/// encodes its arguments, crosses the sandbox boundary with its function id,
/// and decodes status code and output buffer back into a typed result.
///
/// The spec functions name what an implementor lets an extension call
/// observe and change; the method contracts state the dispatch protocol over
/// them.
pub trait MyExtension: Sized {
    /// The implementor's storage and ledger collaborators keep their
    /// invariants.
    spec fn ext_wf(&self) -> bool;

    /// The host's stored-value map, by account identity.
    spec fn ext_storage(&self) -> Map<u32, u32>;

    /// The host's balance ledger, by account identity.
    spec fn ext_balances(&self) -> Map<u32, u32>;

    /// The host-side notifications emitted so far.
    spec fn ext_runtime_events(&self) -> Seq<Event>;

    /// The contract-side events emitted so far.
    spec fn ext_contract_events(&self) -> Seq<ResultNum>;

    /// The identity the extension's calls act under.
    spec fn ext_caller(&self) -> AccountId;

    /// Call host function id `1`: store `key` in the host's storage under
    /// the caller's identity.  The handler accepts every value and hands the
    /// stored value back.
    fn do_store_in_runtime(&mut self, key: u32) -> (r: Result<u32, ContractError>)
        requires
            old(self).ext_wf(),
        ensures
            final(self).ext_wf(),
            r == Ok::<u32, ContractError>(key),
            final(self).ext_storage() == old(self).ext_storage().insert(
                old(self).ext_caller().id,
                key,
            ),
            final(self).ext_runtime_events() == old(self).ext_runtime_events().push(
                Event::CalledPalletFromContract(key),
            ),
            final(self).ext_balances() == old(self).ext_balances(),
            final(self).ext_contract_events() == old(self).ext_contract_events(),
            final(self).ext_caller() == old(self).ext_caller(),
    ;

    /// Call host function id `2`: move `value` from the caller to
    /// `recipient` in the host's ledger.  Succeeds exactly where the
    /// transfer can be applied, and then hands the moved value back; on
    /// failure nothing is changed.
    fn do_balance_transfer(&mut self, value: u32, recipient: AccountId) -> (r: Result<
        u32,
        ContractError,
    >)
        requires
            old(self).ext_wf(),
        ensures
            final(self).ext_wf(),
            final(self).ext_storage() == old(self).ext_storage(),
            final(self).ext_runtime_events() == old(self).ext_runtime_events(),
            final(self).ext_contract_events() == old(self).ext_contract_events(),
            final(self).ext_caller() == old(self).ext_caller(),
            can_transfer(old(self).ext_balances(), old(self).ext_caller().id, recipient.id, value)
                ==> r == Ok::<u32, ContractError>(value) && final(self).ext_balances()
                == transferred(
                old(self).ext_balances(),
                old(self).ext_caller().id,
                recipient.id,
                value,
            ),
            !can_transfer(old(self).ext_balances(), old(self).ext_caller().id, recipient.id, value)
                ==> r == Err::<u32, ContractError>(ContractError::FailToCallRuntime)
                && final(self).ext_balances() == old(self).ext_balances(),
    ;
}

impl MyExtension for CustomEnvironment {
    open spec fn ext_wf(&self) -> bool {
        self.wf()
    }

    open spec fn ext_storage(&self) -> Map<u32, u32> {
        self.storage()
    }

    open spec fn ext_balances(&self) -> Map<u32, u32> {
        self.balance_map()
    }

    open spec fn ext_runtime_events(&self) -> Seq<Event> {
        self.runtime_event_seq()
    }

    open spec fn ext_contract_events(&self) -> Seq<ResultNum> {
        self.contract_event_seq()
    }

    open spec fn ext_caller(&self) -> AccountId {
        self.contract_account
    }

    fn do_store_in_runtime(&mut self, key: u32) -> (r: Result<u32, ContractError>) {
        let input = encode_u32(key);
        proof {
            lemma_u32_codec_round_trip(key, Seq::<u8>::empty());
            assert(u32_le(key) + Seq::<u8>::empty() =~= u32_le(key));
            assert(input@.take(4) =~= input@);
        }
        let caller = self.contract_account;
        let (status, out) = dispatch(FUNC_ID_STORE_IN_RUNTIME, &input, caller, self);
        match ContractError::from_status_code(status) {
            Ok(_) => match decode_u32(&out) {
                Ok(p) => {
                    proof {
                        assert(out@.take(4) =~= out@);
                    }
                    Ok(p.0)
                },
                Err(_) => {
                    proof {
                        assert(false);
                    }
                    Err(ContractError::FailToCallRuntime)
                },
            },
            Err(e) => {
                proof {
                    assert(false);
                }
                Err(e)
            },
        }
    }

    fn do_balance_transfer(&mut self, value: u32, recipient: AccountId) -> (r: Result<
        u32,
        ContractError,
    >) {
        let input = encode_pair(value, recipient);
        proof {
            lemma_pair_codec_round_trip(value, recipient, Seq::<u8>::empty());
            assert(pair_le(value, recipient) + Seq::<u8>::empty() =~= pair_le(value, recipient));
            assert(input@.skip(4).take(4) =~= input@.skip(4));
        }
        let caller = self.contract_account;
        let (status, out) = dispatch(FUNC_ID_BALANCE_TRANSFER, &input, caller, self);
        match ContractError::from_status_code(status) {
            Ok(_) => match decode_u32(&out) {
                Ok(p) => {
                    proof {
                        assert(out@.take(4) =~= out@);
                    }
                    Ok(p.0)
                },
                Err(_) => {
                    proof {
                        assert(false);
                    }
                    Err(ContractError::FailToCallRuntime)
                },
            },
            Err(e) => Err(e),
        }
    }
}

} // verus!
