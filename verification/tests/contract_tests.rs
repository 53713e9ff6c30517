use extension_bridge::account::AccountId;
use extension_bridge::contract::ResultNum;
use extension_bridge::contract::RuntimeInterface;
use extension_bridge::env::CustomEnvironment;
use extension_bridge::pallet::Event;
use extension_bridge::status::ContractError;

const CONTRACT: u32 = 100;
const TRANSFER_AMOUNT: u32 = 400;

fn fresh_env() -> CustomEnvironment {
    CustomEnvironment::new(AccountId::new(CONTRACT))
}

#[test]
fn set_value_works() {
    let mut env = fresh_env();
    let mut test_api = RuntimeInterface::default();
    let _ = test_api.set_value(5, &mut env);
    assert_eq!(test_api.get_value(&mut env), 5);
}

#[test]
fn extended_set_and_get_emits_event() {
    let mut env = fresh_env();
    let mut test_api = RuntimeInterface::default();

    let _ = test_api.store_in_runtime(5, &mut env);

    let emitted_events = &env.contract_events;
    assert_eq!(emitted_events.len(), 1);
}

#[test]
fn extended_transfer_works() {
    let mut env = fresh_env();
    let mut test_api = RuntimeInterface::default();
    env.set_balance(AccountId::new(CONTRACT), TRANSFER_AMOUNT);
    let bob = AccountId::new(2);

    let result = test_api.extended_transfer(5, bob, &mut env);

    assert!(result.is_ok());
    assert_eq!(env.balances.get(bob.id), Some(5));
    assert_eq!(env.balances.get(CONTRACT), Some(TRANSFER_AMOUNT - 5));
}

#[test]
fn store_in_runtime_writes_under_contract_identity() {
    let mut env = fresh_env();
    let mut test_api = RuntimeInterface::default();
    let r = test_api.store_in_runtime(7, &mut env);
    assert!(r.is_ok());
    assert_eq!(env.contract_entry.get(CONTRACT), Some(7));
    assert_eq!(env.runtime_events, vec![Event::CalledPalletFromContract(7)]);
    assert_eq!(env.contract_events, vec![ResultNum { number: 7 }]);
    assert_eq!(test_api.stored_number, 0);
}

#[test]
fn get_value_announces_the_stored_number() {
    let mut env = fresh_env();
    let mut test_api = RuntimeInterface::default();
    let _ = test_api.set_value(9, &mut env);
    let read = test_api.get_value(&mut env);
    assert_eq!(read, 9);
    assert_eq!(env.contract_events, vec![ResultNum { number: 9 }, ResultNum { number: 9 }]);
}

#[test]
fn extended_transfer_fails_without_funds() {
    let mut env = fresh_env();
    let mut test_api = RuntimeInterface::default();
    let bob = AccountId::new(2);
    let result = test_api.extended_transfer(5, bob, &mut env);
    assert_eq!(result, Err(ContractError::FailToCallRuntime));
    assert_eq!(env.balances.get(bob.id), None);
    assert!(env.contract_events.is_empty());
}
