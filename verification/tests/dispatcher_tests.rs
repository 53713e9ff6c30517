use extension_bridge::account::AccountId;
use extension_bridge::codec::encode_pair;
use extension_bridge::codec::encode_u32;
use extension_bridge::dispatcher::dispatch;
use extension_bridge::env::CustomEnvironment;
use extension_bridge::pallet::Event;

const CONTRACT: u32 = 100;

fn fresh_env() -> CustomEnvironment {
    CustomEnvironment::new(AccountId::new(CONTRACT))
}

#[test]
fn dispatch_store_in_runtime_stores_under_caller() {
    // Scenario: function id `1` with argument `7` stores `7` under the
    // calling contract's identity and answers status `0` with payload `7`.
    let mut env = fresh_env();
    let caller = AccountId::new(CONTRACT);
    let input = encode_u32(7);
    let (status, output) = dispatch(1, &input, caller, &mut env);
    assert_eq!(status, 0);
    assert_eq!(output, encode_u32(7));
    assert_eq!(env.contract_entry.get(CONTRACT), Some(7));
    assert_eq!(env.runtime_events, vec![Event::CalledPalletFromContract(7)]);
}

#[test]
fn dispatch_unregistered_id_fails_without_mutation() {
    let mut env = fresh_env();
    let caller = AccountId::new(CONTRACT);
    let input = encode_u32(7);
    let (status, output) = dispatch(3, &input, caller, &mut env);
    assert_eq!(status, 1);
    assert!(output.is_empty());
    assert_eq!(env.contract_entry.get(CONTRACT), None);
    assert!(env.runtime_events.is_empty());
}

#[test]
fn dispatch_rejects_malformed_input() {
    let mut env = fresh_env();
    let caller = AccountId::new(CONTRACT);
    let short = vec![1u8, 2, 3];
    let (status, output) = dispatch(1, &short, caller, &mut env);
    assert_eq!(status, 1);
    assert!(output.is_empty());
    assert_eq!(env.contract_entry.get(CONTRACT), None);

    let mut long = encode_u32(7);
    long.push(0);
    let (status, output) = dispatch(1, &long, caller, &mut env);
    assert_eq!(status, 1);
    assert!(output.is_empty());
    assert_eq!(env.contract_entry.get(CONTRACT), None);
}

#[test]
fn dispatch_balance_transfer_moves_value() {
    let mut env = fresh_env();
    let caller = AccountId::new(CONTRACT);
    let bob = AccountId::new(2);
    env.set_balance(caller, 400);
    let input = encode_pair(150, bob);
    let (status, output) = dispatch(2, &input, caller, &mut env);
    assert_eq!(status, 0);
    assert_eq!(output, encode_u32(150));
    assert_eq!(env.balances.get(CONTRACT), Some(250));
    assert_eq!(env.balances.get(2), Some(150));
}

#[test]
fn dispatch_balance_transfer_fails_on_insufficient_funds() {
    let mut env = fresh_env();
    let caller = AccountId::new(CONTRACT);
    let bob = AccountId::new(2);
    env.set_balance(caller, 100);
    let input = encode_pair(150, bob);
    let (status, output) = dispatch(2, &input, caller, &mut env);
    assert_eq!(status, 1);
    assert!(output.is_empty());
    assert_eq!(env.balances.get(CONTRACT), Some(100));
    assert_eq!(env.balances.get(2), None);
}
