use extension_bridge::codec::encode_u32;
use extension_bridge::status::to_code;
use extension_bridge::status::translate_status;
use extension_bridge::status::ContractError;

#[test]
fn status_zero_means_success() {
    assert_eq!(ContractError::from_status_code(0), Ok(()));
}

#[test]
fn status_one_yields_fail_to_call_runtime() {
    // Scenario: the client maps status `1` to its typed error instead of
    // crashing.
    assert_eq!(ContractError::from_status_code(1), Err(ContractError::FailToCallRuntime));
}

#[test]
fn unmapped_status_translates_to_none() {
    assert_eq!(translate_status(0), Some(Ok(())));
    assert_eq!(translate_status(1), Some(Err(ContractError::FailToCallRuntime)));
    assert_eq!(translate_status(2), None);
    assert_eq!(translate_status(4294967295), None);
}

#[test]
fn to_code_encodes_success_value() {
    let (status, payload) = to_code(Ok(7));
    assert_eq!(status, 0);
    assert_eq!(payload, encode_u32(7));
}

#[test]
fn to_code_maps_error_to_status_one() {
    let (status, payload) = to_code(Err(ContractError::FailToCallRuntime));
    assert_eq!(status, 1);
    assert!(payload.is_empty());
}
