#![allow(non_camel_case_types)]

use evmc::ffi;
use evmc::types::{
    AccessStatus, Address, Bytes32, Capabilities, MessageFlags, MessageKind, Revision,
    StatusCode, StorageStatus, Uint256,
};

// These tests check for Default, PartialEq and Clone traits.
#[test]
fn address_smoke_test() {
    let a = ffi::evmc_address::default();
    let b = Address::default();
    assert_eq!(a.clone(), b.clone());
}

#[test]
fn bytes32_smoke_test() {
    let a = ffi::evmc_bytes32::default();
    let b = Bytes32::default();
    assert_eq!(a.clone(), b.clone());
}

#[test]
fn uint26be_smoke_test() {
    let a = ffi::evmc_uint256be::default();
    let b = Uint256::default();
    assert_eq!(a.clone(), b.clone());
}

#[test]
fn message_kind() {
    assert_eq!(MessageKind::EVMC_CALL, ffi::evmc_call_kind::EVMC_CALL);
    assert_eq!(
        MessageKind::EVMC_CALLCODE,
        ffi::evmc_call_kind::EVMC_CALLCODE
    );
    assert_eq!(
        MessageKind::EVMC_DELEGATECALL,
        ffi::evmc_call_kind::EVMC_DELEGATECALL
    );
    assert_eq!(MessageKind::EVMC_CREATE, ffi::evmc_call_kind::EVMC_CREATE);
}

#[test]
fn message_flags() {
    assert_eq!(MessageFlags::EVMC_STATIC, ffi::evmc_flags::EVMC_STATIC);
}

#[test]
fn status_code() {
    assert_eq!(
        StatusCode::EVMC_SUCCESS,
        ffi::evmc_status_code::EVMC_SUCCESS
    );
    assert_eq!(
        StatusCode::EVMC_FAILURE,
        ffi::evmc_status_code::EVMC_FAILURE
    );
}

#[test]
fn storage_status() {
    assert_eq!(
        StorageStatus::EVMC_STORAGE_UNCHANGED,
        ffi::evmc_storage_status::EVMC_STORAGE_UNCHANGED
    );
    assert_eq!(
        StorageStatus::EVMC_STORAGE_MODIFIED,
        ffi::evmc_storage_status::EVMC_STORAGE_MODIFIED
    );
}

#[test]
fn revision() {
    assert_eq!(Revision::EVMC_FRONTIER, ffi::evmc_revision::EVMC_FRONTIER);
    assert_eq!(Revision::EVMC_ISTANBUL, ffi::evmc_revision::EVMC_ISTANBUL);
}

#[test]
fn default_values_are_zero() {
    assert_eq!(Address::default().bytes, [0u8; 20]);
    assert_eq!(Bytes32::default().bytes, [0u8; 32]);
}

#[test]
fn call_kind_wire_values() {
    assert_eq!(MessageKind::EVMC_CALL.to_wire(), 0);
    assert_eq!(MessageKind::EVMC_DELEGATECALL.to_wire(), 1);
    assert_eq!(MessageKind::EVMC_CALLCODE.to_wire(), 2);
    assert_eq!(MessageKind::EVMC_CREATE.to_wire(), 3);
    assert_eq!(MessageKind::EVMC_CREATE2.to_wire(), 4);
    for raw in 0u32..5 {
        assert_eq!(MessageKind::from_wire(raw).unwrap().to_wire(), raw);
    }
    assert_eq!(MessageKind::from_wire(5), None);
    assert_eq!(MessageKind::from_wire(u32::MAX), None);
}

#[test]
fn status_code_wire_values() {
    assert_eq!(StatusCode::EVMC_SUCCESS.to_wire(), 0);
    assert_eq!(StatusCode::EVMC_FAILURE.to_wire(), 1);
    assert_eq!(StatusCode::EVMC_REVERT.to_wire(), 2);
    assert_eq!(StatusCode::EVMC_INSUFFICIENT_BALANCE.to_wire(), 17);
    assert_eq!(StatusCode::EVMC_INTERNAL_ERROR.to_wire(), -1);
    assert_eq!(StatusCode::EVMC_REJECTED.to_wire(), -2);
    assert_eq!(StatusCode::EVMC_OUT_OF_MEMORY.to_wire(), -3);
    for raw in -3i32..18 {
        assert_eq!(StatusCode::from_wire(raw).unwrap().to_wire(), raw);
    }
    assert_eq!(StatusCode::from_wire(18), None);
    assert_eq!(StatusCode::from_wire(-4), None);
    assert_eq!(StatusCode::from_wire(i32::MIN), None);
}

#[test]
fn revision_wire_values() {
    assert_eq!(Revision::EVMC_FRONTIER.to_wire(), 0);
    assert_eq!(Revision::EVMC_PETERSBURG.to_wire(), 6);
    assert_eq!(Revision::EVMC_ISTANBUL.to_wire(), 7);
    assert_eq!(Revision::EVMC_CANCUN.to_wire(), 12);
    for raw in 0u32..13 {
        assert_eq!(Revision::from_wire(raw).unwrap().to_wire(), raw);
    }
    assert_eq!(Revision::from_wire(13), None);
}

#[test]
fn storage_status_wire_values() {
    assert_eq!(StorageStatus::EVMC_STORAGE_UNCHANGED.to_wire(), 0);
    assert_eq!(StorageStatus::EVMC_STORAGE_MODIFIED.to_wire(), 1);
    assert_eq!(StorageStatus::EVMC_STORAGE_MODIFIED_AGAIN.to_wire(), 2);
    assert_eq!(StorageStatus::EVMC_STORAGE_ADDED.to_wire(), 3);
    assert_eq!(StorageStatus::EVMC_STORAGE_DELETED.to_wire(), 4);
    for raw in 0u32..5 {
        assert_eq!(StorageStatus::from_wire(raw).unwrap().to_wire(), raw);
    }
    assert_eq!(StorageStatus::from_wire(5), None);
}

#[test]
fn other_enumerations_wire_values() {
    assert_eq!(MessageFlags::EVMC_STATIC.to_wire(), 1);
    assert_eq!(MessageFlags::from_wire(1), Some(MessageFlags::EVMC_STATIC));
    assert_eq!(MessageFlags::from_wire(0), None);
    assert_eq!(AccessStatus::EVMC_ACCESS_COLD.to_wire(), 0);
    assert_eq!(AccessStatus::EVMC_ACCESS_WARM.to_wire(), 1);
    assert_eq!(AccessStatus::from_wire(2), None);
    assert_eq!(Capabilities::EVMC_CAPABILITY_EVM1.to_wire(), 1);
    assert_eq!(Capabilities::EVMC_CAPABILITY_EWASM.to_wire(), 2);
    assert_eq!(Capabilities::EVMC_CAPABILITY_PRECOMPILES.to_wire(), 4);
    assert_eq!(Capabilities::from_wire(3), None);
    assert_eq!(
        ffi::evmc_set_option_result::from_wire(2),
        Some(ffi::evmc_set_option_result::EVMC_SET_OPTION_INVALID_VALUE)
    );
    assert_eq!(ffi::evmc_set_option_result::from_wire(3), None);
    assert_eq!(
        ffi::evmc_loader_error_code::EVMC_LOADER_UNSPECIFIED_ERROR.to_wire(),
        -1
    );
    assert_eq!(
        ffi::evmc_loader_error_code::from_wire(5),
        Some(ffi::evmc_loader_error_code::EVMC_LOADER_ABI_VERSION_MISMATCH)
    );
    assert_eq!(ffi::evmc_loader_error_code::from_wire(8), None);
}
