use evmc::ffi;
use evmc::ffi::evmc_release_result_fn;
use evmc::result::{release_heap_result, release_stack_result, ExecutionResult};
use evmc::types::{Address, StatusCode};

#[test]
fn result_new() {
    let r = ExecutionResult::new(StatusCode::EVMC_FAILURE, 420, 21, None);

    assert_eq!(r.status_code(), StatusCode::EVMC_FAILURE);
    assert_eq!(r.gas_left(), 420);
    assert_eq!(r.gas_refund(), 21);
    assert!(r.output().is_none());
    assert!(r.create_address().is_none());
}

#[test]
fn result_from_ffi() {
    let mut f = ffi::evmc_result {
        status_code: StatusCode::EVMC_SUCCESS,
        gas_left: 1337,
        gas_refund: 21,
        output_data: Some(vec![0xde, 0xad, 0xbe, 0xef]),
        output_size: 4,
        release: Some(evmc_release_result_fn::Output),
        create_address: Address { bytes: [0u8; 20] },
        padding: [0u8; 4],
    };

    let r: ExecutionResult = ExecutionResult::from_wire(&mut f);

    assert_eq!(r.status_code(), StatusCode::EVMC_SUCCESS);
    assert_eq!(r.gas_left(), 1337);
    assert_eq!(r.gas_refund(), 21);
    assert!(r.output().is_some());
    assert_eq!(r.output().unwrap().len(), 4);
    assert!(r.create_address().is_some());
}

#[test]
fn result_into_heap_ffi() {
    let r = ExecutionResult::new(
        StatusCode::EVMC_FAILURE,
        420,
        21,
        Some(&[0xc0, 0xff, 0xee, 0x71, 0x75]),
    );

    let f: Box<ffi::evmc_result> = r.to_wire_boxed();
    assert_eq!(f.release, Some(evmc_release_result_fn::OutputAndResult));
    assert_eq!(f.status_code, StatusCode::EVMC_FAILURE);
    assert_eq!(f.gas_left, 420);
    assert_eq!(f.gas_refund, 21);
    assert!(f.output_data.is_some());
    assert_eq!(f.output_size, 5);
    assert_eq!(
        f.output_data.as_ref().unwrap() as &[u8],
        &[0xc0, 0xff, 0xee, 0x71, 0x75]
    );
    assert_eq!(f.create_address.bytes, [0u8; 20]);
    if f.release.is_some() {
        release_heap_result(f);
    }
}

#[test]
fn result_into_heap_ffi_empty_data() {
    let r = ExecutionResult::new(StatusCode::EVMC_FAILURE, 420, 21, None);

    let f: Box<ffi::evmc_result> = r.to_wire_boxed();
    assert_eq!(f.release, Some(evmc_release_result_fn::OutputAndResult));
    assert_eq!(f.status_code, StatusCode::EVMC_FAILURE);
    assert_eq!(f.gas_left, 420);
    assert_eq!(f.gas_refund, 21);
    assert!(f.output_data.is_none());
    assert_eq!(f.output_size, 0);
    assert_eq!(f.create_address.bytes, [0u8; 20]);
    if f.release.is_some() {
        release_heap_result(f);
    }
}

#[test]
fn result_into_stack_ffi() {
    let r = ExecutionResult::new(
        StatusCode::EVMC_FAILURE,
        420,
        21,
        Some(&[0xc0, 0xff, 0xee, 0x71, 0x75]),
    );

    let mut f: ffi::evmc_result = r.to_wire();
    assert_eq!(f.status_code, StatusCode::EVMC_FAILURE);
    assert_eq!(f.gas_left, 420);
    assert_eq!(f.gas_refund, 21);
    assert!(f.output_data.is_some());
    assert_eq!(f.output_size, 5);
    assert_eq!(
        f.output_data.as_ref().unwrap() as &[u8],
        &[0xc0, 0xff, 0xee, 0x71, 0x75]
    );
    assert_eq!(f.create_address.bytes, [0u8; 20]);
    if f.release.is_some() {
        release_stack_result(&mut f);
    }
}

#[test]
fn result_into_stack_ffi_empty_data() {
    let r = ExecutionResult::new(StatusCode::EVMC_FAILURE, 420, 21, None);

    let mut f: ffi::evmc_result = r.to_wire();
    assert_eq!(f.status_code, StatusCode::EVMC_FAILURE);
    assert_eq!(f.gas_left, 420);
    assert_eq!(f.gas_refund, 21);
    assert!(f.output_data.is_none());
    assert_eq!(f.output_size, 0);
    assert_eq!(f.create_address.bytes, [0u8; 20]);
    if f.release.is_some() {
        release_stack_result(&mut f);
    }
}

#[test]
fn result_constructors() {
    let failure = ExecutionResult::failure();
    assert_eq!(failure.status_code(), StatusCode::EVMC_FAILURE);
    assert_eq!(failure.gas_left(), 0);
    assert_eq!(failure.gas_refund(), 0);
    assert!(failure.output().is_none());

    let revert = ExecutionResult::revert(77, Some(&[1, 2, 3]));
    assert_eq!(revert.status_code(), StatusCode::EVMC_REVERT);
    assert_eq!(revert.gas_left(), 77);
    assert_eq!(revert.gas_refund(), 0);
    assert_eq!(revert.output().unwrap(), &vec![1u8, 2, 3]);

    let success = ExecutionResult::success(1337, 21, None);
    assert_eq!(success.status_code(), StatusCode::EVMC_SUCCESS);
    assert_eq!(success.gas_left(), 1337);
    assert_eq!(success.gas_refund(), 21);
    assert!(success.output().is_none());
    assert!(success.create_address().is_none());
}

#[test]
fn result_round_trip_keeps_output_and_gas() {
    let r = ExecutionResult::new(StatusCode::EVMC_REVERT, -5, 9, Some(&[0xaa, 0xbb]));
    let mut wire = r.to_wire();
    assert!(wire.is_well_formed());
    let back = ExecutionResult::from_wire(&mut wire);
    assert_eq!(back.status_code(), StatusCode::EVMC_REVERT);
    assert_eq!(back.gas_left(), -5);
    assert_eq!(back.gas_refund(), 9);
    assert_eq!(back.output().unwrap(), &vec![0xaau8, 0xbb]);
    assert_eq!(back.create_address(), Some(&Address::default()));
}

#[test]
fn canned_result_is_copied_out_and_released() {
    let mut wire = ffi::evmc_result {
        status_code: StatusCode::EVMC_SUCCESS,
        gas_left: 1337,
        gas_refund: 0,
        output_data: Some(vec![0xc0, 0xff, 0xee, 0xef]),
        output_size: 4,
        release: Some(evmc_release_result_fn::Output),
        create_address: Address::default(),
        padding: [0u8; 4],
    };
    let r = ExecutionResult::from_wire(&mut wire);
    assert_eq!(r.status_code(), StatusCode::EVMC_SUCCESS);
    assert_eq!(r.gas_left(), 1337);
    assert_eq!(r.output().unwrap().len(), 4);
    assert_eq!(r.output().unwrap(), &vec![0xc0u8, 0xff, 0xee, 0xef]);
    // The release callback has been called: nothing is left that it could give back.
    assert!(wire.release.is_none());
    assert!(wire.output_data.is_none());
    assert_eq!(wire.output_size, 0);
    assert_eq!(wire.gas_left, 1337);
}

#[test]
fn result_without_release_keeps_its_buffer() {
    let mut wire = ffi::evmc_result {
        status_code: StatusCode::EVMC_SUCCESS,
        gas_left: 2,
        gas_refund: 0,
        output_data: Some(vec![7, 8]),
        output_size: 2,
        release: None,
        create_address: Address::default(),
        padding: [0u8; 4],
    };
    let r = ExecutionResult::from_wire(&mut wire);
    assert_eq!(r.output().unwrap(), &vec![7u8, 8]);
    assert_eq!(wire.output_data, Some(vec![7u8, 8]));
    assert_eq!(wire.output_size, 2);
}

#[test]
fn empty_output_goes_out_as_null() {
    let r = ExecutionResult::new(StatusCode::EVMC_SUCCESS, 1, 0, Some(&[]));
    let mut wire = r.to_wire();
    assert!(wire.output_data.is_none());
    assert_eq!(wire.output_size, 0);
    assert!(wire.is_well_formed());
    let back = ExecutionResult::from_wire(&mut wire);
    assert!(back.output().is_none());
}

#[test]
fn create_address_goes_out_as_it_is() {
    let mut wire = ffi::evmc_result {
        status_code: StatusCode::EVMC_SUCCESS,
        gas_left: 0,
        gas_refund: 0,
        output_data: None,
        output_size: 0,
        release: None,
        create_address: Address { bytes: [0x11; 20] },
        padding: [0u8; 4],
    };
    let r = ExecutionResult::from_wire(&mut wire);
    assert_eq!(r.create_address(), Some(&Address { bytes: [0x11; 20] }));
    let out = r.to_wire();
    assert_eq!(out.create_address.bytes, [0x11; 20]);
    assert_eq!(out.padding, [0u8; 4]);
    assert_eq!(out.release, Some(evmc_release_result_fn::Output));
}

#[test]
fn malformed_results_are_told_apart() {
    let well_formed = |data: Option<Vec<u8>>, size: usize| {
        ffi::evmc_result {
            status_code: StatusCode::EVMC_SUCCESS,
            gas_left: 0,
            gas_refund: 0,
            output_data: data,
            output_size: size,
            release: None,
            create_address: Address::default(),
            padding: [0u8; 4],
        }
        .is_well_formed()
    };
    assert!(well_formed(None, 0));
    assert!(well_formed(Some(vec![1, 2]), 2));
    assert!(!well_formed(None, 3));
    assert!(!well_formed(Some(vec![]), 0));
    assert!(!well_formed(Some(vec![1, 2]), 3));
}

#[test]
fn checked_from_wire_refuses_what_breaks_the_interface() {
    let mut null_with_size = ffi::evmc_result {
        status_code: StatusCode::EVMC_SUCCESS,
        gas_left: 4,
        gas_refund: 0,
        output_data: None,
        output_size: 3,
        release: Some(evmc_release_result_fn::Output),
        create_address: Address::default(),
        padding: [0u8; 4],
    };
    assert!(ExecutionResult::checked_from_wire(&mut null_with_size).is_none());
    assert_eq!(null_with_size.output_size, 3);
    assert_eq!(null_with_size.release, Some(evmc_release_result_fn::Output));

    let mut heap_release = ffi::evmc_result {
        status_code: StatusCode::EVMC_SUCCESS,
        gas_left: 4,
        gas_refund: 0,
        output_data: Some(vec![1]),
        output_size: 1,
        release: Some(evmc_release_result_fn::OutputAndResult),
        create_address: Address::default(),
        padding: [0u8; 4],
    };
    assert!(ExecutionResult::checked_from_wire(&mut heap_release).is_none());
    assert_eq!(heap_release.output_data, Some(vec![1u8]));

    let mut good = ffi::evmc_result {
        status_code: StatusCode::EVMC_REVERT,
        gas_left: 4,
        gas_refund: 0,
        output_data: Some(vec![1]),
        output_size: 1,
        release: Some(evmc_release_result_fn::Output),
        create_address: Address::default(),
        padding: [0u8; 4],
    };
    let taken = ExecutionResult::checked_from_wire(&mut good).unwrap();
    assert_eq!(taken.status_code(), StatusCode::EVMC_REVERT);
    assert_eq!(taken.output().unwrap(), &vec![1u8]);
    assert!(good.release.is_none());
}
