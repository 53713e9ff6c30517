use vstd::prelude::*;
use crate::account::AccountId;
use crate::codec::decode_pair;
use crate::codec::decode_u32;
use crate::env::CustomEnvironment;
use crate::codec::u32_le;
use crate::codec::u32_of_le;
use crate::pallet::Event;
use crate::pallet::Origin;
use crate::pallet::Pallet;
use crate::status::to_code;
use crate::status::status_outcome;
use crate::status::ContractError;
use crate::status::STATUS_FAIL_TO_CALL_RUNTIME;
use crate::status::STATUS_SUCCESS;
use crate::storage::StorageMap;

verus! {

/// Function id of the handler that stores a value in the host's storage
/// under the calling contract's identity.
pub const FUNC_ID_STORE_IN_RUNTIME: u32 = 1;

/// Function id of the handler that moves value from the calling contract to
/// a recipient account.
pub const FUNC_ID_BALANCE_TRANSFER: u32 = 2;

/// Whether the host registers a handler under the given function id.  The
/// registration table is built at process start and immutable afterwards.
pub open spec fn registered(func_id: u32) -> bool {
    func_id == FUNC_ID_STORE_IN_RUNTIME || func_id == FUNC_ID_BALANCE_TRANSFER
}

/// The balance an account holds in the ledger: zero where no entry exists.
pub open spec fn balance_of(m: Map<u32, u32>, who: u32) -> u32 {
    if m.dom().contains(who) {
        m[who]
    } else {
        0u32
    }
}

/// Whether `amount` can move from `from` to `to`: the sender holds at least
/// `amount`, and the recipient's balance does not overflow.
pub open spec fn can_transfer(m: Map<u32, u32>, from: u32, to: u32, amount: u32) -> bool {
    if from == to {
        balance_of(m, from) >= amount
    } else {
        balance_of(m, from) >= amount && balance_of(m, to) + amount <= u32::MAX
    }
}

/// The ledger after `amount` moved from `from` to `to`.  A transfer to
/// oneself moves nothing.
pub open spec fn transferred(m: Map<u32, u32>, from: u32, to: u32, amount: u32) -> Map<u32, u32> {
    if from == to {
        m
    } else {
        m.insert(from, (balance_of(m, from) - amount) as u32).insert(
            to,
            (balance_of(m, to) + amount) as u32,
        )
    }
}

/// Test, without touching the ledger, whether `amount` could move from
/// `from` to `to`.
pub fn transfer_possible(balances: &StorageMap, from: AccountId, to: AccountId, amount: u32) -> (b:
    bool)
    ensures
        b == can_transfer(balances.as_map(), from.id, to.id, amount),
{
    let bf = match balances.get(from.id) {
        Some(b) => b,
        None => 0,
    };
    if bf < amount {
        return false;
    }
    if from.id == to.id {
        return true;
    }
    let bt = match balances.get(to.id) {
        Some(b) => b,
        None => 0,
    };
    bt <= u32::MAX - amount
}

/// Move `amount` from `from` to `to` in the ledger.  The move is atomic: on
/// failure — insufficient funds, or recipient overflow — the ledger is left
/// untouched.
pub fn do_transfer(balances: &mut StorageMap, from: AccountId, to: AccountId, amount: u32) -> (r:
    Result<(), ContractError>)
    requires
        old(balances).wf(),
    ensures
        final(balances).wf(),
        can_transfer(old(balances).as_map(), from.id, to.id, amount) ==> r is Ok && final(balances).as_map() == transferred(old(balances).as_map(), from.id, to.id, amount),
        !can_transfer(old(balances).as_map(), from.id, to.id, amount) ==> r == Err::<
            (),
            ContractError,
        >(ContractError::FailToCallRuntime) && *final(balances) == *old(balances),
{
    let bf = match balances.get(from.id) {
        Some(b) => b,
        None => 0,
    };
    if bf < amount {
        return Err(ContractError::FailToCallRuntime);
    }
    if from.id == to.id {
        return Ok(());
    }
    let bt = match balances.get(to.id) {
        Some(b) => b,
        None => 0,
    };
    if bt > u32::MAX - amount {
        return Err(ContractError::FailToCallRuntime);
    }
    balances.insert(from.id, bf - amount);
    balances.insert(to.id, bt + amount);
    Ok(())
}

/// The host-side chain-extension dispatcher: route a function id and a raw
/// input buffer to the registered handler, and return the status code and
/// output buffer that cross back over the sandbox boundary.
///
/// An unregistered id and a buffer that is not exactly one encoded argument
/// tuple fail the same way, with status `1` and an empty output: the caller
/// learns nothing beyond the failure.  A failing call mutates nothing; a
/// succeeding handler performs its one storage write and returns status `0`
/// with its result encoded in the output buffer.
pub fn dispatch(func_id: u32, input: &Vec<u8>, caller: AccountId, env: &mut CustomEnvironment) -> (
    r: (u32, Vec<u8>))
    requires
        old(env).wf(),
    ensures
        final(env).wf(),
        status_outcome(r.0) is Some,
        final(env).contract_account == old(env).contract_account,
        final(env).contract_event_seq() == old(env).contract_event_seq(),
        func_id == FUNC_ID_STORE_IN_RUNTIME && input@.len() == 4 ==> r.0 == STATUS_SUCCESS
            && r.1@ == u32_le(u32_of_le(input@))
            && final(env).storage() == old(env).storage().insert(caller.id, u32_of_le(input@))
            && final(env).runtime_event_seq()
            == old(env).runtime_event_seq().push(Event::CalledPalletFromContract(u32_of_le(input@)))
            && final(env).balance_map() == old(env).balance_map(),
        func_id == FUNC_ID_BALANCE_TRANSFER && input@.len() == 8 && can_transfer(
            old(env).balance_map(),
            caller.id,
            u32_of_le(input@.skip(4)),
            u32_of_le(input@.take(4)),
        ) ==> r.0 == STATUS_SUCCESS && r.1@ == u32_le(u32_of_le(input@.take(4)))
            && final(env).balance_map() == transferred(
            old(env).balance_map(),
            caller.id,
            u32_of_le(input@.skip(4)),
            u32_of_le(input@.take(4)),
        ) && final(env).storage() == old(env).storage() && final(env).runtime_event_seq() == old(env).runtime_event_seq(),
        func_id == FUNC_ID_BALANCE_TRANSFER && input@.len() == 8 && !can_transfer(
            old(env).balance_map(),
            caller.id,
            u32_of_le(input@.skip(4)),
            u32_of_le(input@.take(4)),
        ) ==> r.0 == STATUS_FAIL_TO_CALL_RUNTIME && r.1@ == Seq::<u8>::empty() && *final(env)
            == *old(env),
        registered(func_id) && !(func_id == FUNC_ID_STORE_IN_RUNTIME && input@.len() == 4) && !(
        func_id == FUNC_ID_BALANCE_TRANSFER && input@.len() == 8) ==> r.0
            == STATUS_FAIL_TO_CALL_RUNTIME && r.1@ == Seq::<u8>::empty() && *final(env) == *old(env),
        !registered(func_id) ==> r.0 == STATUS_FAIL_TO_CALL_RUNTIME && r.1@ == Seq::<u8>::empty()
            && *final(env) == *old(env),
{
    if func_id == FUNC_ID_STORE_IN_RUNTIME {
        match decode_u32(input) {
            Ok(p) => {
                let (v, rest) = p;
                if rest.len() == 0 {
                    proof {
                        assert(input@.skip(4).len() == input@.len() - 4);
                        assert(input@.take(4) =~= input@);
                    }
                    let _res = Pallet::insert_number(Origin::Signed(caller), v, env);
                    to_code(Ok(v))
                } else {
                    to_code(Err(ContractError::FailToCallRuntime))
                }
            },
            Err(_) => to_code(Err(ContractError::FailToCallRuntime)),
        }
    } else if func_id == FUNC_ID_BALANCE_TRANSFER {
        match decode_pair(input) {
            Ok(p) => {
                let ((amount, recipient), rest) = p;
                if rest.len() == 0 {
                    proof {
                        assert(input@.skip(4).len() == input@.len() - 4);
                        assert(input@.take(4).len() == 4);
                        assert(input@.skip(4).take(4) =~= input@.skip(4));
                    }
                    match do_transfer(&mut env.balances, caller, recipient, amount) {
                        Ok(_) => to_code(Ok(amount)),
                        Err(e) => to_code(Err(e)),
                    }
                } else {
                    to_code(Err(ContractError::FailToCallRuntime))
                }
            },
            Err(_) => to_code(Err(ContractError::FailToCallRuntime)),
        }
    } else {
        to_code(Err(ContractError::FailToCallRuntime))
    }
}

} // verus!
