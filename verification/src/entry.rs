//! The entry points through which a host reaches a declared virtual machine: what each of
//! them decides and computes once its arguments are plain values.

use crate::container::EvmcContainer;
use crate::declare::VMMetaData;
use crate::ffi::{
    evmc_host_interface, evmc_message, evmc_release_result_fn, evmc_result,
    evmc_set_option_result, evmc_vm, EVMC_ABI_VERSION,
};
use crate::message::{ExecutionMessage, MessageView};
use crate::result::{ExecutionResult, ResultView};
use crate::types::{Revision, StatusCode};
use crate::vm::{EvmcVm, ExecutionContext, Host, SetOptionError};
use vstd::prelude::*;

verus! {

/// The instance data of a declared virtual machine: this library's interface version, the
/// declared name and version without their terminators, and entry points to destroy the
/// machine, to execute with it and to ask for its capabilities, but none to set an option.
pub fn instance_of(metadata: &VMMetaData) -> (instance: evmc_vm)
    ensures
        instance.abi_version == EVMC_ABI_VERSION,
        instance.name matches Some(name) && name@ == metadata.name_stylized().drop_last(),
        instance.version matches Some(version) && version@
            == metadata.custom_version().drop_last(),
        instance.destroy,
        instance.execute,
        instance.get_capabilities,
        !instance.set_option,
{
    let name = metadata.get_name_stylized_nulterm().as_str();
    let version = metadata.get_custom_version_nulterm().as_str();
    let name_len: usize = name.unicode_len();
    let version_len: usize = version.unicode_len();
    evmc_vm {
        abi_version: EVMC_ABI_VERSION,
        destroy: true,
        execute: true,
        get_capabilities: true,
        set_option: false,
        name: Some(String::from_str(name.substring_char(0, name_len - 1))),
        version: Some(String::from_str(version.substring_char(0, version_len - 1))),
    }
}

/// Makes a virtual machine of the declared type, in a container of its own that the caller
/// then owns.
pub fn create<T: EvmcVm>(metadata: &VMMetaData) -> (container: Box<EvmcContainer<T>>)
    ensures
        container.instance().abi_version == EVMC_ABI_VERSION,
        container.instance().name matches Some(name) && name@
            == metadata.name_stylized().drop_last(),
        container.instance().version matches Some(version) && version@
            == metadata.custom_version().drop_last(),
        container.instance().destroy,
        container.instance().execute,
        container.instance().get_capabilities,
        !container.instance().set_option,
        call_ensures(T::init, (), container.vm()),
{
    let new_instance = instance_of(metadata);
    EvmcContainer::<T>::new(new_instance)
}

/// Disposes of the virtual machine. It takes the container, so that the machine cannot be
/// reached, nor destroyed again, afterwards.
pub fn destroy<T: EvmcVm>(container: Box<EvmcContainer<T>>) {
    let _ = container;
}

/// The capabilities that a declared virtual machine reports.
pub fn get_capabilities(metadata: &VMMetaData) -> (capabilities: u32)
    ensures
        capabilities == metadata.capabilities(),
{
    metadata.get_capabilities()
}

/// What a virtual machine's answer to an option crosses the boundary as.
pub fn set_option_result(answer: Result<(), SetOptionError>) -> (result: evmc_set_option_result)
    ensures
        result == match answer {
            Ok(_) => evmc_set_option_result::EVMC_SET_OPTION_SUCCESS,
            Err(SetOptionError::InvalidKey) => evmc_set_option_result::EVMC_SET_OPTION_INVALID_NAME,
            Err(SetOptionError::InvalidValue) =>
                evmc_set_option_result::EVMC_SET_OPTION_INVALID_VALUE,
        },
{
    match answer {
        Ok(_) => evmc_set_option_result::EVMC_SET_OPTION_SUCCESS,
        Err(SetOptionError::InvalidKey) => evmc_set_option_result::EVMC_SET_OPTION_INVALID_NAME,
        Err(SetOptionError::InvalidValue) => evmc_set_option_result::EVMC_SET_OPTION_INVALID_VALUE,
    }
}

/// Whether the arguments of an execution can be worked with: the instance and the message
/// are there, and code that is not there has size zero. A host that passes anything else
/// has broken the interface, and the entry point must stop the process.
pub fn arguments_valid(
    instance_is_null: bool,
    msg_is_null: bool,
    code_is_null: bool,
    code_size: usize,
) -> (valid: bool)
    ensures
        valid == !(instance_is_null || msg_is_null || (code_is_null && code_size != 0)),
{
    !(instance_is_null || msg_is_null || (code_is_null && code_size != 0))
}

/// The result of an execution that came to its end, or else, where the machine's code
/// gave up half way, the result that reports an internal error: no gas left, no refund, no
/// output.
pub fn or_internal_error(outcome: Option<ExecutionResult>) -> (result: ExecutionResult)
    ensures
        match outcome {
            Some(finished) => result@ == finished@,
            None => result@ == (ResultView {
                status_code: StatusCode::EVMC_INTERNAL_ERROR,
                gas_left: 0,
                gas_refund: 0,
                output: None,
                create_address: None,
            }),
        },
{
    match outcome {
        Some(finished) => finished,
        None => ExecutionResult::new(StatusCode::EVMC_INTERNAL_ERROR, 0, 0, None),
    }
}

/// The code that a machine is given: the bytes behind the pointer, or none where the
/// pointer is null.
pub open spec fn code_of(code: Option<&[u8]>) -> Seq<u8> {
    match code {
        Some(bytes) => bytes@,
        None => Seq::<u8>::empty(),
    }
}

/// Runs the virtual machine on a message: takes the message in from its wire form, binds
/// the host, if there is one, in an execution context, lets the machine execute, and hands
/// the machine's own result back in its wire form, by value. Code that is not there is
/// empty code. A host whose table has no callback for the transaction context cannot be
/// bound: the result then reports an internal error.
///
/// Whatever the machine answers, what is handed back is well formed and carries the
/// release callback of a result handed over by value.
///
/// A wire message whose input pointer and size disagree is a fault of the host: test
/// `is_well_formed` and stop on it.
pub fn execute<T: EvmcVm, H: Host>(
    container: &EvmcContainer<T>,
    host: Option<(&evmc_host_interface, &mut H)>,
    revision: Revision,
    msg: &evmc_message,
    code: Option<&[u8]>,
) -> (result: evmc_result)
    requires
        msg@.well_formed(),
    ensures
        result@.well_formed(),
        result@.releasable_by_value(),
        result.release == Some(evmc_release_result_fn::Output),
        host is None ==> exists|code_ref: &[u8], message: ExecutionMessage, answer: ExecutionResult|
            code_ref@ == code_of(code) && message@ == MessageView::from_wire(msg@)
                && #[trigger] call_ensures(
                T::execute::<H>,
                (
                    &container.vm(),
                    revision,
                    code_ref,
                    &message,
                    None::<&mut ExecutionContext<H>>,
                ),
                answer,
            ) && answer@.is_wire(evmc_release_result_fn::Output, result@),
        host is Some && (host->0).0.get_tx_context ==> exists|
            code_ref: &[u8],
            message: ExecutionMessage,
            bound: &mut ExecutionContext<H>,
            answer: ExecutionResult,
        |
            code_ref@ == code_of(code) && message@ == MessageView::from_wire(msg@) && bound.host()
                == *(host->0).0 && #[trigger] call_ensures(
                T::execute::<H>,
                (&container.vm(), revision, code_ref, &message, Some(bound)),
                answer,
            ) && answer@.is_wire(evmc_release_result_fn::Output, result@),
        host is Some && !(host->0).0.get_tx_context ==> result.status_code
            == StatusCode::EVMC_INTERNAL_ERROR && result.gas_left == 0 && result.gas_refund == 0
            && result.output_data is None,
{
    let execution_message = ExecutionMessage::from_wire(msg);
    let empty_code: [u8; 0] = [];
    let code_ref: &[u8] = match code {
        Some(bytes) => bytes,
        None => empty_code.as_slice(),
    };
    let result = match host {
        None => container.execute::<H>(revision, code_ref, &execution_message, None),
        Some((table, context)) => {
            if table.get_tx_context {
                let mut execution_context = ExecutionContext::new(table, context);
                container.execute(
                    revision,
                    code_ref,
                    &execution_message,
                    Some(&mut execution_context),
                )
            } else {
                or_internal_error(None)
            }
        },
    };
    result.to_wire()
}

} // verus!
