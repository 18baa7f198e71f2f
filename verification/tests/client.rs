use evmc::client::host;
use evmc::client::host::{ExtendedContext, HostContext};
use evmc::client::types::{Address, Bytes, Bytes32, MessageKind, StatusCode, StorageStatus};
use evmc::client::EvmcVm;
use evmc::ffi;
use evmc::ffi::evmc_release_result_fn;
use evmc::types::Capabilities;

/// A client that remembers what it was asked and answers with fixed values.
struct RecordingHost {
    calls: Vec<(MessageKind, Address, Address, Bytes32, Vec<u8>, i64, i32, bool, Bytes32)>,
    logs: Vec<(Address, Vec<Bytes32>, Vec<u8>)>,
    destroyed: Vec<(Address, Address)>,
    answer: Vec<u8>,
}

impl RecordingHost {
    fn new(answer: &[u8]) -> Self {
        RecordingHost {
            calls: Vec::new(),
            logs: Vec::new(),
            destroyed: Vec::new(),
            answer: answer.to_vec(),
        }
    }
}

impl HostContext for RecordingHost {
    fn account_exists(&mut self, addr: &Address) -> bool {
        addr[0] == 1
    }

    fn get_storage(&mut self, addr: &Address, key: &Bytes32) -> Bytes32 {
        let mut value = *key;
        value[0] = addr[0];
        value
    }

    fn set_storage(&mut self, _addr: &Address, key: &Bytes32, value: &Bytes32) -> StorageStatus {
        if key == value {
            StorageStatus::EVMC_STORAGE_UNCHANGED
        } else {
            StorageStatus::EVMC_STORAGE_ADDED
        }
    }

    fn get_balance(&mut self, addr: &Address) -> Bytes32 {
        [addr[0]; 32]
    }

    fn get_code_size(&mut self, addr: &Address) -> usize {
        addr[0] as usize * 100
    }

    fn get_code_hash(&mut self, addr: &Address) -> Bytes32 {
        [addr[19]; 32]
    }

    fn copy_code(&mut self, _addr: &Address, offset: &usize, buffer: &mut [u8]) -> usize {
        let code = [10u8, 11, 12, 13];
        let mut copied = 0;
        for (slot, byte) in buffer.iter_mut().zip(code.iter().skip(*offset)) {
            *slot = *byte;
            copied += 1;
        }
        copied
    }

    fn selfdestruct(&mut self, addr: &Address, beneficiary: &Address) {
        self.destroyed.push((*addr, *beneficiary));
    }

    fn get_tx_context(
        &mut self,
    ) -> (
        Bytes32,
        Address,
        Address,
        i64,
        i64,
        i64,
        Bytes32,
        Bytes32,
        Bytes32,
    ) {
        (
            [1u8; 32], [2u8; 20], [3u8; 20], 4, 5, 6, [7u8; 32], [8u8; 32], [9u8; 32],
        )
    }

    fn get_block_hash(&mut self, number: i64) -> Bytes32 {
        [number as u8; 32]
    }

    fn emit_log(&mut self, addr: &Address, topics: &Vec<Bytes32>, data: &Bytes) {
        self.logs.push((*addr, topics.clone(), data.to_vec()));
    }

    fn call(
        &mut self,
        kind: MessageKind,
        recipient: &Address,
        sender: &Address,
        value: &Bytes32,
        input: &Bytes,
        gas: i64,
        depth: i32,
        is_static: bool,
        salt: &Bytes32,
    ) -> (Vec<u8>, i64, Address, StatusCode) {
        self.calls.push((
            kind,
            *recipient,
            *sender,
            *value,
            input.to_vec(),
            gas,
            depth,
            is_static,
            *salt,
        ));
        (
            self.answer.clone(),
            gas - 1,
            [0x33; 20],
            StatusCode::EVMC_REVERT,
        )
    }
}

fn address(byte: u8) -> ffi::evmc_address {
    ffi::evmc_address { bytes: [byte; 20] }
}

fn bytes32(byte: u8) -> ffi::evmc_bytes32 {
    ffi::evmc_bytes32 { bytes: [byte; 32] }
}

#[test]
fn host_interface_of_a_client() {
    let table = host::get_evmc_host_interface();
    assert!(table.account_exists);
    assert!(table.get_storage);
    assert!(table.set_storage);
    assert!(table.get_balance);
    assert!(table.get_code_size);
    assert!(table.get_code_hash);
    assert!(table.copy_code);
    assert!(table.selfdestruct);
    assert!(table.call);
    assert!(table.get_tx_context);
    assert!(table.get_block_hash);
    assert!(table.emit_log);
    assert!(!table.access_account);
    assert!(!table.access_storage);
}

#[test]
fn callbacks_convert_arguments_and_answers() {
    let mut client = RecordingHost::new(&[]);
    {
        let mut context = ExtendedContext { hctx: &mut client };
        assert!(host::account_exists(&mut context, &address(1)));
        assert!(!host::account_exists(&mut context, &address(2)));

        let mut expected = [5u8; 32];
        expected[0] = 4;
        assert_eq!(
            host::get_storage(&mut context, &address(4), &bytes32(5)).bytes,
            expected
        );
        assert_eq!(
            host::set_storage(&mut context, &address(1), &bytes32(5), &bytes32(5)),
            ffi::evmc_storage_status::EVMC_STORAGE_UNCHANGED
        );
        assert_eq!(
            host::set_storage(&mut context, &address(1), &bytes32(5), &bytes32(6)),
            ffi::evmc_storage_status::EVMC_STORAGE_ADDED
        );
        assert_eq!(host::get_balance(&mut context, &address(7)).bytes, [7u8; 32]);
        assert_eq!(host::get_code_size(&mut context, &address(3)), 300);
        assert_eq!(host::get_code_hash(&mut context, &address(8)).bytes, [8u8; 32]);
        let mut buffer = vec![0u8; 3];
        assert_eq!(host::copy_code(&mut context, &address(1), 2, &mut buffer), 2);
        assert_eq!(buffer, vec![12, 13, 0]);
        host::selfdestruct(&mut context, &address(1), &address(2));
        assert_eq!(host::get_block_hash(&mut context, 9).bytes, [9u8; 32]);
        host::emit_log(&mut context, &address(6), &[1, 2, 3], &[bytes32(1), bytes32(2)]);
        host::emit_log(&mut context, &address(6), &[], &[]);
    }
    assert_eq!(client.destroyed, vec![([1u8; 20], [2u8; 20])]);
    assert_eq!(
        client.logs,
        vec![
            ([6u8; 20], vec![[1u8; 32], [2u8; 32]], vec![1u8, 2, 3]),
            ([6u8; 20], vec![], vec![]),
        ]
    );
}

#[test]
fn topics_become_plain_bytes() {
    assert_eq!(host::topic_bytes(&[]), Vec::<Bytes32>::new());
    assert_eq!(
        host::topic_bytes(&[bytes32(1), bytes32(2), bytes32(3)]),
        vec![[1u8; 32], [2u8; 32], [3u8; 32]]
    );
}

#[test]
fn transaction_context_from_parts() {
    let mut client = RecordingHost::new(&[]);
    let mut context = ExtendedContext { hctx: &mut client };
    let tx = host::get_tx_context(&mut context);
    assert_eq!(tx.tx_gas_price.bytes, [1u8; 32]);
    assert_eq!(tx.tx_origin.bytes, [2u8; 20]);
    assert_eq!(tx.block_coinbase.bytes, [3u8; 20]);
    assert_eq!(tx.block_number, 4);
    assert_eq!(tx.block_timestamp, 5);
    assert_eq!(tx.block_gas_limit, 6);
    assert_eq!(tx.block_prev_randao.bytes, [7u8; 32]);
    assert_eq!(tx.chain_id.bytes, [8u8; 32]);
    assert_eq!(tx.block_base_fee.bytes, [9u8; 32]);
    assert_eq!(
        host::tx_context_from_parts((
            [0u8; 32], [0u8; 20], [0u8; 20], 42, 235117, 105023, [0xaa; 32], [0u8; 32],
            [0u8; 32]
        ))
        .block_gas_limit,
        105023
    );
}

#[test]
fn call_callback_hands_the_answer_back() {
    let input = [0xc0u8, 0xff, 0xee];
    let msg = ffi::evmc_message {
        kind: MessageKind::EVMC_DELEGATECALL,
        flags: 1,
        depth: 66,
        gas: 4466,
        recipient: address(0x20),
        sender: address(0x80),
        input_data: Some(&input),
        input_size: 3,
        value: bytes32(4),
        create2_salt: bytes32(5),
        code_address: address(6),
    };
    let mut client = RecordingHost::new(&[0xc0, 0xff, 0xee, 0xef]);
    let result = {
        let mut context = ExtendedContext { hctx: &mut client };
        host::call(&mut context, &msg)
    };
    assert_eq!(
        client.calls,
        vec![(
            MessageKind::EVMC_DELEGATECALL,
            [0x20; 20],
            [0x80; 20],
            [4u8; 32],
            vec![0xc0, 0xff, 0xee],
            4466,
            66,
            true,
            [5u8; 32]
        )]
    );
    assert_eq!(result.status_code, StatusCode::EVMC_REVERT);
    assert_eq!(result.gas_left, 4465);
    assert_eq!(result.gas_refund, 0);
    assert_eq!(result.output_data, Some(vec![0xc0u8, 0xff, 0xee, 0xef]));
    assert_eq!(result.output_size, 4);
    assert_eq!(result.release, Some(evmc_release_result_fn::Output));
    assert_eq!(result.create_address.bytes, [0x33; 20]);
    assert_eq!(result.padding, [0u8; 4]);
    assert!(result.is_well_formed());
}

#[test]
fn call_callback_without_input_or_output() {
    let msg = ffi::evmc_message {
        kind: MessageKind::EVMC_CALL,
        flags: 0,
        depth: 0,
        gas: 10,
        recipient: address(1),
        sender: address(2),
        input_data: None,
        input_size: 0,
        value: bytes32(0),
        create2_salt: bytes32(0),
        code_address: address(0),
    };
    assert_eq!(host::message_input(&msg), &[] as &[u8]);
    let mut client = RecordingHost::new(&[]);
    let result = {
        let mut context = ExtendedContext { hctx: &mut client };
        host::call(&mut context, &msg)
    };
    assert_eq!(client.calls[0].4, Vec::<u8>::new());
    assert!(!client.calls[0].7);
    assert!(result.output_data.is_none());
    assert_eq!(result.output_size, 0);
    assert!(result.is_well_formed());
}

#[test]
fn call_result_of_an_answer() {
    let result = host::call_result(vec![1, 2, 3], -7, [9u8; 20], StatusCode::EVMC_SUCCESS);
    assert_eq!(result.status_code, StatusCode::EVMC_SUCCESS);
    assert_eq!(result.gas_left, -7);
    assert_eq!(result.output_data, Some(vec![1u8, 2, 3]));
    assert_eq!(result.output_size, 3);
    assert_eq!(result.create_address.bytes, [9u8; 20]);
    let empty = host::call_result(Vec::new(), 0, [0u8; 20], StatusCode::EVMC_FAILURE);
    assert!(empty.output_data.is_none());
    assert_eq!(empty.output_size, 0);
    assert_eq!(empty.release, Some(evmc_release_result_fn::Output));
}

#[test]
fn message_of_an_execution() {
    let input = [0xc0u8, 0xff, 0xee];
    let message = EvmcVm::execute_message(
        MessageKind::EVMC_CALL,
        true,
        66,
        4466,
        &[0x20; 20],
        &[0x80; 20],
        &input,
        &[0u8; 32],
        &[0xff; 32],
        &[0x40; 20],
    );
    assert_eq!(message.kind, MessageKind::EVMC_CALL);
    assert_eq!(message.flags, 1);
    assert_eq!(message.depth, 66);
    assert_eq!(message.gas, 4466);
    assert_eq!(message.recipient.bytes, [0x20; 20]);
    assert_eq!(message.sender.bytes, [0x80; 20]);
    assert_eq!(message.input_data, Some(&input[..]));
    assert_eq!(message.input_size, 3);
    assert_eq!(message.value.bytes, [0u8; 32]);
    assert_eq!(message.create2_salt.bytes, [0xff; 32]);
    assert_eq!(message.code_address.bytes, [0x40; 20]);
    assert!(message.is_well_formed());

    let plain = EvmcVm::execute_message(
        MessageKind::EVMC_CREATE,
        false,
        0,
        1,
        &[0u8; 20],
        &[0u8; 20],
        &[],
        &[0u8; 32],
        &[0u8; 32],
        &[0u8; 20],
    );
    assert_eq!(plain.flags, 0);
    assert!(plain.input_data.is_none());
    assert_eq!(plain.input_size, 0);
    assert!(plain.is_well_formed());
}

#[test]
fn output_of_an_execution() {
    let result = ffi::evmc_result {
        status_code: StatusCode::EVMC_SUCCESS,
        gas_left: 1337,
        gas_refund: 0,
        output_data: Some(vec![0xc0, 0xff, 0xee, 0xef]),
        output_size: 4,
        release: None,
        create_address: address(0),
        padding: [0u8; 4],
    };
    let (output, gas_left, status_code) = EvmcVm::execute_output(&result);
    assert_eq!(output, &[0xc0u8, 0xff, 0xee, 0xef]);
    assert_eq!(gas_left, 1337);
    assert_eq!(status_code, StatusCode::EVMC_SUCCESS);

    let nothing = ffi::evmc_result {
        status_code: StatusCode::EVMC_OUT_OF_GAS,
        gas_left: 0,
        gas_refund: 0,
        output_data: None,
        output_size: 0,
        release: None,
        create_address: address(0),
        padding: [0u8; 4],
    };
    let (output, gas_left, status_code) = EvmcVm::execute_output(&nothing);
    assert!(output.is_empty());
    assert_eq!(gas_left, 0);
    assert_eq!(status_code, StatusCode::EVMC_OUT_OF_GAS);
}

#[test]
fn capabilities_of_a_loaded_machine() {
    let vm = evmc::client::load_and_configure("vm.so", |_: &str| {
        (
            ffi::evmc_loader_error_code::EVMC_LOADER_SUCCESS,
            Some(ffi::evmc_vm {
            abi_version: ffi::EVMC_ABI_VERSION,
            name: Some("vm".to_string()),
            version: Some("0".to_string()),
            destroy: true,
            execute: true,
            get_capabilities: true,
            set_option: false,
        }),
            String::new(),
        )
    })
    .unwrap();
    assert!(vm.has_capability(Capabilities::EVMC_CAPABILITY_EVM1, || 1));
    assert!(vm.has_capability(Capabilities::EVMC_CAPABILITY_EWASM, || 2));
    assert!(vm.has_capability(Capabilities::EVMC_CAPABILITY_PRECOMPILES, || 4));
    assert!(!vm.has_capability(Capabilities::EVMC_CAPABILITY_EVM1, || 2));
    assert!(vm.has_capability(Capabilities::EVMC_CAPABILITY_EVM1, || 3));
    assert!(vm.has_capability(Capabilities::EVMC_CAPABILITY_EWASM, || 3));
    assert!(!vm.has_capability(Capabilities::EVMC_CAPABILITY_PRECOMPILES, || 3));
    assert!(vm.has_capability(Capabilities::EVMC_CAPABILITY_PRECOMPILES, || 7));
    assert!(!vm.has_capability(Capabilities::EVMC_CAPABILITY_EWASM, || 0));
    assert_eq!(vm.get_handle().abi_version, 10);
}

#[test]
fn execute_hands_the_machine_the_message_and_copies_the_output() {
    let vm = evmc::client::load_and_configure("vm.so", |_: &str| {
        (
            ffi::evmc_loader_error_code::EVMC_LOADER_SUCCESS,
            Some(ffi::evmc_vm {
            abi_version: ffi::EVMC_ABI_VERSION,
            name: Some("vm".to_string()),
            version: Some("0".to_string()),
            destroy: true,
            execute: true,
            get_capabilities: true,
            set_option: false,
        }),
            String::new(),
        )
    })
    .unwrap();
    let mut seen = Vec::new();
    let (output, gas_left, status_code) = vm.execute(
        |table: &ffi::evmc_host_interface,
         revision: evmc::client::types::Revision,
         message: &ffi::evmc_message,
         code: &[u8]| {
            seen.push((
                *table,
                revision,
                message.kind,
                message.flags,
                message.depth,
                message.gas,
                message.input_data.map(|input| input.to_vec()),
                message.input_size,
                code.to_vec(),
            ));
            ffi::evmc_result {
                status_code: StatusCode::EVMC_SUCCESS,
                gas_left: 1337,
                gas_refund: 0,
                output_data: Some(vec![0xc0, 0xff, 0xee, 0xef]),
                output_size: 4,
                release: Some(evmc_release_result_fn::Output),
                create_address: address(0),
                padding: [0u8; 4],
            }
        },
        evmc::client::types::Revision::EVMC_ISTANBUL,
        MessageKind::EVMC_CALL,
        true,
        66,
        4466,
        &[0x20; 20],
        &[0x80; 20],
        &[0xc0, 0xff, 0xee],
        &[0u8; 32],
        &[0x60, 0x00],
        &[0u8; 32],
        &[0x20; 20],
    );
    assert_eq!(output, vec![0xc0, 0xff, 0xee, 0xef]);
    assert_eq!(gas_left, 1337);
    assert_eq!(status_code, StatusCode::EVMC_SUCCESS);
    assert_eq!(
        seen,
        vec![(
            host::get_evmc_host_interface(),
            evmc::client::types::Revision::EVMC_ISTANBUL,
            MessageKind::EVMC_CALL,
            1,
            66,
            4466,
            Some(vec![0xc0, 0xff, 0xee]),
            3,
            vec![0x60, 0x00],
        )]
    );
}
