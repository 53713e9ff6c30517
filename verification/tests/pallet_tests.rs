use extension_bridge::account::AccountId;
use extension_bridge::bridge::CallError;
use extension_bridge::contract::ResultNum;
use extension_bridge::contract::RuntimeInterface;
use extension_bridge::env::CustomEnvironment;
use extension_bridge::pallet::DispatchError;
use extension_bridge::pallet::Error;
use extension_bridge::pallet::Event;
use extension_bridge::pallet::Origin;
use extension_bridge::pallet::Pallet;

const ALICE: AccountId = AccountId { id: 1 };
const CONTRACT: u32 = 100;

fn fresh_env() -> CustomEnvironment {
    CustomEnvironment::new(AccountId::new(CONTRACT))
}

/// The four big-endian bytes of the contract's `set_value` selector.
fn set_value_selector() -> Vec<u8> {
    vec![0x00, 0xAB, 0xCD, 0xEF]
}

#[test]
fn stores_value() {
    let origin = Origin::Signed(ALICE);
    let chain_extension_input = 5;
    let mut env = fresh_env();
    assert!(Pallet::insert_number(origin, chain_extension_input, &mut env).is_ok());
    assert_eq!(env.contract_entry.get(ALICE.id), Some(chain_extension_input));
}

#[test]
fn insert_number_emits_exactly_one_notification() {
    // Scenario: `insert_number(5)` signed by `ALICE` on empty storage makes
    // the lookup for `ALICE` yield `5` and emits one
    // `CalledPalletFromContract(5)`.
    let mut env = fresh_env();
    assert!(Pallet::insert_number(Origin::Signed(ALICE), 5, &mut env).is_ok());
    assert_eq!(env.contract_entry.get(ALICE.id), Some(5));
    assert_eq!(env.runtime_events, vec![Event::CalledPalletFromContract(5)]);
}

#[test]
fn insert_number_accepts_full_range() {
    let mut env = fresh_env();
    assert!(Pallet::insert_number(Origin::Signed(ALICE), 0, &mut env).is_ok());
    assert_eq!(env.contract_entry.get(ALICE.id), Some(0));
    assert!(Pallet::insert_number(Origin::Signed(ALICE), 4294967295, &mut env).is_ok());
    assert_eq!(env.contract_entry.get(ALICE.id), Some(4294967295));
}

#[test]
fn insert_number_is_idempotent_on_storage() {
    let mut once = fresh_env();
    assert!(Pallet::insert_number(Origin::Signed(ALICE), 5, &mut once).is_ok());
    let mut twice = fresh_env();
    assert!(Pallet::insert_number(Origin::Signed(ALICE), 5, &mut twice).is_ok());
    assert!(Pallet::insert_number(Origin::Signed(ALICE), 5, &mut twice).is_ok());
    assert_eq!(once.contract_entry.get(ALICE.id), twice.contract_entry.get(ALICE.id));
    assert_eq!(twice.contract_entry.get(ALICE.id), Some(5));
}

#[test]
fn insert_number_rejects_unsigned_origin() {
    let mut env = fresh_env();
    let r = Pallet::insert_number(Origin::Root, 5, &mut env);
    assert_eq!(r, Err(DispatchError::BadOrigin));
    assert_eq!(env.contract_entry.get(ALICE.id), None);
    assert!(env.runtime_events.is_empty());
}

#[test]
fn call_smart_contract_reaches_set_value() {
    let mut env = fresh_env();
    let mut contract = RuntimeInterface::default();
    let r = Pallet::call_smart_contract(
        Origin::Signed(ALICE),
        AccountId::new(CONTRACT),
        set_value_selector(),
        1,
        10_000_000_000,
        &mut contract,
        &mut env,
    );
    assert!(r.is_ok());
    assert_eq!(contract.stored_number, 1);
    assert_eq!(env.runtime_events, vec![Event::CalledContract(AccountId::new(CONTRACT))]);
    assert_eq!(env.contract_events, vec![ResultNum { number: 1 }]);
}

#[test]
fn call_smart_contract_rejects_long_selector() {
    // Scenario: a 60-byte selector buffer is `ArgumentTooLarge`; nothing is
    // emitted and nothing is mutated.
    let mut env = fresh_env();
    let mut contract = RuntimeInterface::default();
    let selector = vec![0u8; 60];
    let r = Pallet::call_smart_contract(
        Origin::Signed(ALICE),
        AccountId::new(CONTRACT),
        selector,
        1,
        10_000_000_000,
        &mut contract,
        &mut env,
    );
    assert_eq!(r, Err(DispatchError::Pallet(Error::ArgumentTooLarge)));
    assert!(env.runtime_events.is_empty());
    assert!(env.contract_events.is_empty());
    assert_eq!(contract.stored_number, 0);
    assert_eq!(env.contract_entry.get(ALICE.id), None);
}

#[test]
fn call_smart_contract_distinguishes_out_of_gas() {
    let mut env = fresh_env();
    let mut contract = RuntimeInterface::default();
    let r = Pallet::call_smart_contract(
        Origin::Signed(ALICE),
        AccountId::new(CONTRACT),
        set_value_selector(),
        1,
        999,
        &mut contract,
        &mut env,
    );
    assert_eq!(r, Err(DispatchError::Contract(CallError::OutOfGas)));
    assert_eq!(contract.stored_number, 0);
    assert!(env.contract_events.is_empty());
}

#[test]
fn call_smart_contract_fails_on_unknown_destination() {
    let mut env = fresh_env();
    let mut contract = RuntimeInterface::default();
    let r = Pallet::call_smart_contract(
        Origin::Signed(ALICE),
        AccountId::new(7),
        set_value_selector(),
        1,
        10_000_000_000,
        &mut contract,
        &mut env,
    );
    assert_eq!(r, Err(DispatchError::Contract(CallError::ContractNotFound)));
    assert_eq!(contract.stored_number, 0);
}

#[test]
fn call_smart_contract_traps_on_unknown_selector() {
    let mut env = fresh_env();
    let mut contract = RuntimeInterface::default();
    let r = Pallet::call_smart_contract(
        Origin::Signed(ALICE),
        AccountId::new(CONTRACT),
        vec![0x01, 0x02, 0x03, 0x04],
        1,
        10_000_000_000,
        &mut contract,
        &mut env,
    );
    assert_eq!(r, Err(DispatchError::Contract(CallError::ContractTrapped)));
    assert_eq!(contract.stored_number, 0);
    assert!(env.runtime_events.is_empty());
    assert!(env.contract_events.is_empty());
}

#[test]
fn call_smart_contract_accepts_boundary_length_selector() {
    // A selector buffer of exactly 50 bytes is not too large: the call
    // proceeds past the length check and fails only later, in the sandbox,
    // because no contract entry point answers to it.
    let mut env = fresh_env();
    let mut contract = RuntimeInterface::default();
    let selector = vec![0u8; 50];
    let r = Pallet::call_smart_contract(
        Origin::Signed(ALICE),
        AccountId::new(CONTRACT),
        selector,
        1,
        10_000_000_000,
        &mut contract,
        &mut env,
    );
    assert_eq!(r, Err(DispatchError::Contract(CallError::ContractTrapped)));
    assert_eq!(contract.stored_number, 0);
}
