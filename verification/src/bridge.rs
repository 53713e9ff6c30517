use vstd::prelude::*;
use crate::account::AccountId;
use crate::codec::encode_result_unit;
use crate::codec::result_unit_bytes;
use crate::codec::u32_of_le;
use crate::contract::ResultNum;
use crate::contract::RuntimeInterface;
use crate::dispatcher::can_transfer;
use crate::dispatcher::do_transfer;
use crate::dispatcher::transfer_possible;
use crate::dispatcher::transferred;
use crate::env::CustomEnvironment;

verus! {

/// How a bare call into a deployed contract can fail.  Gas exhaustion is its
/// own variant, distinguishable from every other failure, so a caller can
/// choose to retry with a higher bound.
#[derive(Clone, Copy, Debug, PartialEq, Eq, Structural)]
pub enum CallError {
    /// No contract is deployed under the destination account.
    ContractNotFound,
    /// The gas limit does not cover the entry point's cost.
    OutOfGas,
    /// The value transfer accompanying the call cannot be applied.
    TransferFailed,
    /// The sandboxed execution failed: the call data carried no selector the
    /// contract exposes, or arguments its entry point does not decode.
    ContractTrapped,
}

/// The gas one contract entry point costs to run: the sandbox's whole cost
/// model, since execution here has no variable-length work.
pub const MESSAGE_GAS_COST: u64 = 1000;

/// The selector the contract fixes for its `set_value` entry point, chosen
/// at authoring time and immutable.
pub const SET_VALUE_SELECTOR: u32 = 0xABCDEF;

/// The selector named by the first four bytes of call data: selectors travel
/// big-endian, most significant byte first.
pub open spec fn selector_of(b: Seq<u8>) -> u32
    recommends
        b.len() == 4,
{
    (b[0] * 0x1000000 + b[1] * 0x10000 + b[2] * 0x100 + b[3]) as u32
}

/// Read the selector off the front of call data.
pub fn read_selector(data: &Vec<u8>) -> (r: u32)
    requires
        data@.len() >= 4,
    ensures
        r == selector_of(data@.take(4)),
{
    let b0 = data[0] as u32;
    let b1 = data[1] as u32;
    let b2 = data[2] as u32;
    let b3 = data[3] as u32;
    let r = b0 * 0x1000000 + b1 * 0x10000 + b2 * 0x100 + b3;
    proof {
        assert(data@.take(4) =~= seq![data@[0], data@[1], data@[2], data@[3]]);
    }
    r
}

/// What a bare call with the given inputs comes to, checked in order: the
/// destination must hold the deployed contract, the gas limit must cover the
/// entry point's cost, an accompanying value transfer must be applicable,
/// and the call data must be the contract's one exposed selector followed by
/// exactly the arguments its entry point decodes.  Past every check, the
/// decoded argument.
pub open spec fn bare_call_check(
    env: CustomEnvironment,
    who: AccountId,
    dest: AccountId,
    value: u32,
    gas_limit: u64,
    data: Seq<u8>,
) -> Result<u32, CallError> {
    if dest.id != env.contract_account.id {
        Err(CallError::ContractNotFound)
    } else if gas_limit < MESSAGE_GAS_COST {
        Err(CallError::OutOfGas)
    } else if value > 0 && !can_transfer(env.balance_map(), who.id, dest.id, value) {
        Err(CallError::TransferFailed)
    } else if data.len() < 4 || selector_of(data.take(4)) != SET_VALUE_SELECTOR {
        Err(CallError::ContractTrapped)
    } else if data.len() != 8 {
        Err(CallError::ContractTrapped)
    } else {
        Ok(u32_of_le(data.skip(4)))
    }
}

/// The host-side bare-call bridge: invoke the deployed contract's entry
/// point with `data` — a four-byte selector and the encoded arguments — on
/// behalf of `who`, transferring `value` alongside the call.
///
/// The bridge does not interpret the data beyond the selector: argument
/// decoding and the entry point's own work happen in the sandbox.  The call
/// is transactional: on any failure the contract, the ledger and both event
/// records are exactly as they were, and on success the raw bytes the entry
/// point returned come back unchanged.
pub fn bare_call(
    who: AccountId,
    dest: AccountId,
    value: u32,
    gas_limit: u64,
    data: Vec<u8>,
    contract: &mut RuntimeInterface,
    env: &mut CustomEnvironment,
) -> (r: Result<Vec<u8>, CallError>)
    requires
        old(env).wf(),
    ensures
        final(env).wf(),
        final(env).contract_account == old(env).contract_account,
        final(env).storage() == old(env).storage(),
        final(env).runtime_event_seq() == old(env).runtime_event_seq(),
        bare_call_check(*old(env), who, dest, value, gas_limit, data@) matches Err(e) ==> r
            == Err::<Vec<u8>, CallError>(e) && *final(env) == *old(env) && *final(contract)
            == *old(contract),
        bare_call_check(*old(env), who, dest, value, gas_limit, data@) matches Ok(arg) ==> (r
            matches Ok(out) && out@ == result_unit_bytes(Ok(()))
            && final(contract).stored_number == arg && final(env).balance_map() == (
        if value > 0 {
            transferred(old(env).balance_map(), who.id, dest.id, value)
        } else {
            old(env).balance_map()
        }) && final(env).contract_event_seq() == old(env).contract_event_seq().push(
            ResultNum { number: arg },
        )),
{
    if dest.id != env.contract_account.id {
        return Err(CallError::ContractNotFound);
    }
    if gas_limit < MESSAGE_GAS_COST {
        return Err(CallError::OutOfGas);
    }
    if value > 0 && !transfer_possible(&env.balances, who, dest, value) {
        return Err(CallError::TransferFailed);
    }
    // Validate the call data in full before mutating anything, so that a
    // trapped call rolls back to an untouched state by never leaving it.
    if data.len() < 4 {
        return Err(CallError::ContractTrapped);
    }
    let selector = read_selector(&data);
    if selector != SET_VALUE_SELECTOR {
        return Err(CallError::ContractTrapped);
    }
    if data.len() != 8 {
        return Err(CallError::ContractTrapped);
    }
    let arg = data[4] as u32 + data[5] as u32 * 0x100 + data[6] as u32 * 0x10000 + data[7] as u32
        * 0x1000000;
    proof {
        assert(data@.skip(4) =~= seq![data@[4], data@[5], data@[6], data@[7]]);
    }
    if value > 0 {
        let moved = do_transfer(&mut env.balances, who, dest, value);
        proof {
            assert(moved is Ok);
        }
    }
    let res = contract.set_value(arg, env);
    Ok(encode_result_unit(res))
}

} // verus!
