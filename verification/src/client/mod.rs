//! The client's side of the boundary: a loaded virtual machine, and the callbacks that the
//! client hands to it.

pub mod host;
pub mod loader;
pub mod types;

use crate::client::types::{
    Address, Bytes, Bytes32, Capabilities, MessageKind, Revision, StatusCode,
};
use crate::ffi::{
    evmc_address, evmc_bytes32, evmc_flags, evmc_host_interface, evmc_loader_error_code,
    evmc_message, evmc_result, evmc_uint256be, evmc_vm, WireMessage,
};
use vstd::prelude::*;

verus! {

/// A loaded virtual machine, with the callback table that it is given when it executes.
#[derive(Debug)]
pub struct EvmcVm {
    handle: evmc_vm,
    host_interface: evmc_host_interface,
}

impl EvmcVm {
    /// The instance data of the machine.
    pub closed spec fn handle(&self) -> evmc_vm {
        self.handle
    }

    /// The callback table that the machine is given.
    pub closed spec fn host_interface(&self) -> evmc_host_interface {
        self.host_interface
    }

    /// The version of the interface that the machine speaks.
    pub fn get_abi_version(&self) -> (version: i32)
        ensures
            version == self.handle().abi_version,
    {
        self.handle.abi_version
    }

    /// The machine's name. A machine without a name has broken the interface.
    pub fn get_name(&self) -> (name: &str)
        requires
            self.handle().name is Some,
        ensures
            name@ == self.handle().name->0@,
    {
        self.handle.name.as_ref().unwrap().as_str()
    }

    /// The machine's version. A machine without a version has broken the interface.
    pub fn get_version(&self) -> (version: &str)
        requires
            self.handle().version is Some,
        ensures
            version@ == self.handle().version->0@,
    {
        self.handle.version.as_ref().unwrap().as_str()
    }

    /// The instance data, to hand it to the machine's entry points.
    pub fn get_handle(&self) -> (handle: &evmc_vm)
        ensures
            *handle == self.handle(),
    {
        &self.handle
    }

    /// The callback table, to hand it to the machine when it executes.
    pub fn get_host_interface(&self) -> (table: &evmc_host_interface)
        ensures
            *table == self.host_interface(),
    {
        &self.host_interface
    }

    /// The message that an execution is started with: the parts as they are given, the
    /// static flag alone where the call is static and no flag else, and the input as a
    /// pointer and a size that agree.
    pub open spec fn message_of(
        kind: MessageKind,
        is_static: bool,
        depth: i32,
        gas: i64,
        recipient: Address,
        sender: Address,
        input: Seq<u8>,
        value: Bytes32,
        create2_salt: Bytes32,
        code_address: Address,
    ) -> WireMessage {
        WireMessage {
            kind,
            flags: if is_static {
                evmc_flags::EVMC_STATIC.wire_value() as u32
            } else {
                0
            },
            depth,
            gas,
            recipient: evmc_address { bytes: recipient },
            sender: evmc_address { bytes: sender },
            input_data: if input.len() > 0 {
                Some(input)
            } else {
                None
            },
            input_size: input.len() as usize,
            value: evmc_uint256be { bytes: value },
            create2_salt: evmc_bytes32 { bytes: create2_salt },
            code_address: evmc_address { bytes: code_address },
        }
    }

    /// Makes the message that an execution is started with. The input is lent to it.
    pub fn execute_message<'a>(
        kind: MessageKind,
        is_static: bool,
        depth: i32,
        gas: i64,
        recipient: &Address,
        sender: &Address,
        input: &'a Bytes,
        value: &Bytes32,
        create2_salt: &Bytes32,
        code_address: &Address,
    ) -> (message: evmc_message<'a>)
        ensures
            message@ == Self::message_of(
                kind,
                is_static,
                depth,
                gas,
                *recipient,
                *sender,
                input@,
                *value,
                *create2_salt,
                *code_address,
            ),
            message@.well_formed(),
    {
        let mut evmc_flags: u32 = 0;
        if is_static {
            evmc_flags = evmc_flags::EVMC_STATIC.to_wire();
        }
        evmc_message {
            kind,
            flags: evmc_flags,
            depth,
            gas,
            recipient: evmc_address { bytes: *recipient },
            sender: evmc_address { bytes: *sender },
            input_data: if input.len() > 0 {
                Some(input)
            } else {
                None
            },
            input_size: input.len(),
            value: evmc_uint256be { bytes: *value },
            create2_salt: evmc_bytes32 { bytes: *create2_salt },
            code_address: evmc_address { bytes: *code_address },
        }
    }

    /// What an execution ended with: the output, which stays with the result, the gas
    /// left and the status code. Where the output pointer is null the output is empty.
    ///
    /// A result whose output pointer and size disagree is a fault of the machine: test
    /// `is_well_formed` and stop on it.
    pub fn execute_output(result: &evmc_result) -> (output: (&Bytes, i64, StatusCode))
        requires
            result@.well_formed(),
        ensures
            output.0@ == crate::client::host::output_of(result@),
            output.0@.len() == result.output_size,
            output.1 == result.gas_left,
            output.2 == result.status_code,
    {
        let bytes: &[u8] = match &result.output_data {
            Some(bytes) => bytes.as_slice(),
            None => &[],
        };
        (bytes, result.gas_left, result.status_code)
    }

    /// Executes code on the machine. The machine is reached through `machine`, which is
    /// handed the callback table, the revision, the message that `execute_message` makes of
    /// the parts, and the code. The output is copied out of what the machine hands back,
    /// which is then released, and comes back with the gas left and the status code.
    ///
    /// This is for a machine that is known to hand back well-formed results with the
    /// release callback, if any, of a result handed over by value.
    pub fn execute<F>(
        &self,
        machine: F,
        rev: Revision,
        kind: MessageKind,
        is_static: bool,
        depth: i32,
        gas: i64,
        recipient: &Address,
        sender: &Address,
        input: &Bytes,
        value: &Bytes32,
        code: &Bytes,
        create2_salt: &Bytes32,
        code_address: &Address,
    ) -> (output: (Vec<u8>, i64, StatusCode)) where
        F: FnOnce(&evmc_host_interface, Revision, &evmc_message, &Bytes) -> evmc_result,

        requires
            forall|table: &evmc_host_interface, message: &evmc_message, code: &Bytes|
                message@.well_formed() ==> #[trigger] call_requires(
                    machine,
                    (table, rev, message, code),
                ),
            forall|
                table: &evmc_host_interface,
                message: &evmc_message,
                code: &Bytes,
                answer: evmc_result,
            |
                #[trigger] call_ensures(machine, (table, rev, message, code), answer)
                    ==> answer@.well_formed() && answer@.releasable_by_value(),
        ensures
            exists|message: evmc_message, answer: evmc_result|
                message@ == Self::message_of(
                    kind,
                    is_static,
                    depth,
                    gas,
                    *recipient,
                    *sender,
                    input@,
                    *value,
                    *create2_salt,
                    *code_address,
                ) && #[trigger] call_ensures(
                    machine,
                    (&self.host_interface(), rev, &message, code),
                    answer,
                ) && output.0@ == crate::client::host::output_of(answer@) && output.1
                    == answer.gas_left && output.2 == answer.status_code,
    {
        let message = Self::execute_message(
            kind,
            is_static,
            depth,
            gas,
            recipient,
            sender,
            input,
            value,
            create2_salt,
            code_address,
        );
        let mut result = machine(&self.host_interface, rev, &message, code);
        assert(call_ensures(machine, (&self.host_interface(), rev, &message, code), result));
        let (bytes, gas_left, status_code) = Self::execute_output(&result);
        let output = vstd::slice::slice_to_vec(bytes);
        let _ = crate::result::ExecutionResult::from_wire(&mut result);
        (output, gas_left, status_code)
    }

    /// Whether the machine has the capability: the machine is asked for its flag set
    /// through `get_capabilities`, and the capability is there when its bit is set in the
    /// answer.
    pub fn has_capability<F>(&self, capability: Capabilities, get_capabilities: F) -> (has:
        bool) where F: FnOnce() -> u32
        requires
            call_requires(get_capabilities, ()),
        ensures
            exists|reported: u32|
                #[trigger] call_ensures(get_capabilities, (), reported) && has == (reported & (
                capability.wire_value() as u32) != 0),
    {
        get_capabilities() & capability.to_wire() != 0
    }
}

/// Loads and configures a virtual machine for a client. The native loader is reached
/// through `loader`, as in `loader::load_and_configure`; the machine that comes back has
/// the client's callback table.
///
/// This is for a loader that is known to report an instance exactly when it reports
/// success.
pub fn load_and_configure<F>(config: &str, loader: F) -> (result: Result<
    EvmcVm,
    (evmc_loader_error_code, String),
>) where F: FnOnce(&str) -> (evmc_loader_error_code, Option<evmc_vm>, String)
    requires
        call_requires(loader, (config,)),
        forall|report: (evmc_loader_error_code, Option<evmc_vm>, String)|
            #[trigger] call_ensures(loader, (config,), report) ==> crate::loader::consistent(
                report.0,
                report.1,
            ),
    ensures
        exists|report: (evmc_loader_error_code, Option<evmc_vm>, String)|
            #[trigger] call_ensures(loader, (config,), report) && match result {
                Ok(vm) => crate::loader::outcome(report.0, report.1, report.2@) == Ok::<
                    evmc_vm,
                    (evmc_loader_error_code, Seq<char>),
                >(vm.handle()) && vm.host_interface() == host::get_evmc_host_interface_spec(),
                Err((code, msg)) => crate::loader::outcome(report.0, report.1, report.2@)
                    == Err::<evmc_vm, (evmc_loader_error_code, Seq<char>)>((code, msg@)),
            },
{
    match crate::loader::load_and_configure(config, loader) {
        Ok(handle) => Ok(EvmcVm { handle, host_interface: host::get_evmc_host_interface() }),
        Err(e) => Err(e),
    }
}

} // verus!
