use vstd::prelude::*;
use crate::account::AccountId;
use crate::bridge::bare_call;
use crate::bridge::bare_call_check;
use crate::bridge::CallError;
use crate::codec::encode_u32;
use crate::codec::lemma_u32_codec_round_trip;
use crate::codec::u32_le;
use crate::contract::ResultNum;
use crate::contract::RuntimeInterface;
use crate::env::CustomEnvironment;

verus! {

/// Where an extrinsic call originates.  Only a signed origin carries the
/// account identity the extrinsics need; a root call has none.
#[derive(Clone, Copy, Debug, PartialEq, Eq, Structural)]
pub enum Origin {
    /// A call signed by the given account.
    Signed(AccountId),
    /// A call made by the runtime's root authority.
    Root,
}

/// The extrinsics' own error conditions.
#[derive(Clone, Copy, Debug, PartialEq, Eq, Structural)]
pub enum Error {
    /// The selector buffer handed to `call_smart_contract` is too long.
    ArgumentTooLarge,
}

/// Why a whole extrinsic failed.  Every failure leaves storage, balances and
/// both event records exactly as they were: a failed extrinsic commits
/// nothing.
#[derive(Clone, Copy, Debug, PartialEq, Eq, Structural)]
pub enum DispatchError {
    /// The origin carries no signer.
    BadOrigin,
    /// An extrinsic rejected its arguments.
    Pallet(Error),
    /// The bare-call bridge failed; the bridge's error passes through
    /// untouched.
    Contract(CallError),
}

/// What an extrinsic call returns.
pub type DispatchResult = Result<(), DispatchError>;

/// The notifications the extrinsics emit.
#[derive(Clone, Copy, Debug, PartialEq, Eq, Structural)]
pub enum Event {
    /// A bare call into the contract under the given account succeeded.
    CalledContract(AccountId),
    /// A value reached the pallet's storage, via the extrinsic or via the
    /// chain extension.
    CalledPalletFromContract(u32),
}

/// The longest selector buffer `call_smart_contract` accepts; a buffer
/// longer than this is rejected before anything is mutated.
pub const MAX_LENGTH: usize = 50;

/// The host-side extrinsic-processing module: the entry points an external
/// transaction can invoke.
pub struct Pallet {}

impl Pallet {
    /// Write `val` into storage under the signer's identity and emit
    /// `CalledPalletFromContract(val)`.  Accepts every 32-bit value; fails
    /// only for an unsigned origin, and then changes nothing.
    pub fn insert_number(origin: Origin, val: u32, env: &mut CustomEnvironment) -> (r:
        DispatchResult)
        requires
            old(env).wf(),
        ensures
            final(env).wf(),
            origin matches Origin::Signed(who) ==> r is Ok
                && final(env).storage() == old(env).storage().insert(who.id, val)
                && final(env).runtime_event_seq()
                == old(env).runtime_event_seq().push(Event::CalledPalletFromContract(val))
                && final(env).balance_map() == old(env).balance_map()
                && final(env).contract_event_seq() == old(env).contract_event_seq()
                && final(env).contract_account == old(env).contract_account,
            origin is Root ==> r == Err::<(), DispatchError>(DispatchError::BadOrigin)
                && *final(env) == *old(env),
    {
        match origin {
            Origin::Signed(who) => {
                env.contract_entry.insert(who.id, val);
                env.runtime_events.push(Event::CalledPalletFromContract(val));
                Ok(())
            },
            Origin::Root => Err(DispatchError::BadOrigin),
        }
    }

    /// Call the deployed contract from an extrinsic: build the call data as
    /// the selector followed by the encoded argument, hand it to the
    /// bare-call bridge with no value transferred, and emit
    /// `CalledContract(dest)` once the call succeeded.
    ///
    /// A selector buffer longer than `MAX_LENGTH` bytes is rejected as
    /// `ArgumentTooLarge` before anything is built; a bridge failure passes
    /// through untouched.  Either way a failed extrinsic leaves the whole
    /// environment and the contract exactly as they were.
    pub fn call_smart_contract(
        origin: Origin,
        dest: AccountId,
        selector: Vec<u8>,
        arg: u32,
        gas_limit: u64,
        contract: &mut RuntimeInterface,
        env: &mut CustomEnvironment,
    ) -> (r: DispatchResult)
        requires
            old(env).wf(),
        ensures
            final(env).wf(),
            final(env).storage() == old(env).storage(),
            final(env).balance_map() == old(env).balance_map(),
            final(env).contract_account == old(env).contract_account,
            origin is Root ==> r == Err::<(), DispatchError>(DispatchError::BadOrigin)
                && *final(env) == *old(env) && *final(contract) == *old(contract),
            origin is Signed && selector@.len() > MAX_LENGTH ==> r == Err::<(), DispatchError>(
                DispatchError::Pallet(Error::ArgumentTooLarge),
            ) && *final(env) == *old(env) && *final(contract) == *old(contract),
            origin is Signed && selector@.len() <= MAX_LENGTH ==> (bare_call_check(
                *old(env),
                origin->Signed_0,
                dest,
                0,
                gas_limit,
                selector@ + u32_le(arg),
            ) matches Err(e) ==> r == Err::<(), DispatchError>(DispatchError::Contract(e))
                && *final(env) == *old(env) && *final(contract) == *old(contract)),
            origin is Signed && selector@.len() <= MAX_LENGTH && bare_call_check(
                *old(env),
                origin->Signed_0,
                dest,
                0,
                gas_limit,
                selector@ + u32_le(arg),
            ) is Ok ==> r is Ok && final(contract).stored_number == arg
                && final(env).runtime_event_seq() == old(env).runtime_event_seq().push(
                Event::CalledContract(dest),
            ) && final(env).contract_event_seq() == old(env).contract_event_seq().push(
                ResultNum { number: arg },
            ),
    {
        let who = match origin {
            Origin::Signed(w) => w,
            Origin::Root => {
                return Err(DispatchError::BadOrigin);
            },
        };
        if selector.len() > MAX_LENGTH {
            return Err(DispatchError::Pallet(Error::ArgumentTooLarge));
        }
        let ghost selector_view = selector@;
        let mut data = selector;
        let mut arg_enc = encode_u32(arg);
        data.append(&mut arg_enc);
        proof {
            assert(data@ == selector_view + u32_le(arg));
        }
        match bare_call(who, dest, 0, gas_limit, data, contract, env) {
            Ok(_bytes) => {
                proof {
                    lemma_u32_codec_round_trip(arg, Seq::<u8>::empty());
                    assert(u32_le(arg) + Seq::<u8>::empty() =~= u32_le(arg));
                    if selector_view.len() == 4 {
                        assert((selector_view + u32_le(arg)).skip(4) =~= u32_le(arg));
                        assert(u32_le(arg).take(4) =~= u32_le(arg));
                    }
                }
                env.runtime_events.push(Event::CalledContract(dest));
                Ok(())
            },
            Err(e) => Err(DispatchError::Contract(e)),
        }
    }
}

/// Idempotence law of `insert_number`: two writes of the same value under
/// the same signer leave the storage map exactly as one write leaves it —
/// the second write overwrites the first with the value already there.
pub proof fn lemma_insert_number_idempotent(storage: Map<u32, u32>, who: AccountId, val: u32)
    ensures
        storage.insert(who.id, val).insert(who.id, val) == storage.insert(who.id, val),
{
    assert(storage.insert(who.id, val).insert(who.id, val) =~= storage.insert(who.id, val));
}

} // verus!
