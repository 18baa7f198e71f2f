//! Loading a virtual machine from a module: what the loader decides once the module has
//! been opened, or not, and its function has made an instance, or not.

use crate::ffi::{evmc_loader_error_code, evmc_set_option_result, evmc_vm, EVMC_ABI_VERSION};
use vstd::prelude::*;

verus! {

/// What was found when a module was opened and asked for a virtual machine.
#[derive(Debug)]
pub enum Loaded {
    /// The module could not be opened.
    NotOpened,
    /// The module has no function that creates a machine.
    NoCreateFunction,
    /// The module's function was called and handed back this instance, or none.
    Created(Option<evmc_vm>),
}

/// The verdict on what was found: the instance, if there is one and it speaks this
/// library's version of the interface, and else the error that says what is wrong. An
/// instance that speaks another version is not handed on: no field of it can be relied on.
pub open spec fn verdict(loaded: Loaded) -> Result<evmc_vm, evmc_loader_error_code> {
    match loaded {
        Loaded::NotOpened => Err(evmc_loader_error_code::EVMC_LOADER_CANNOT_OPEN),
        Loaded::NoCreateFunction => Err(evmc_loader_error_code::EVMC_LOADER_SYMBOL_NOT_FOUND),
        Loaded::Created(None) => Err(evmc_loader_error_code::EVMC_LOADER_VM_CREATION_FAILURE),
        Loaded::Created(Some(instance)) => if instance.abi_version == EVMC_ABI_VERSION {
            Ok(instance)
        } else {
            Err(evmc_loader_error_code::EVMC_LOADER_ABI_VERSION_MISMATCH)
        },
    }
}

/// Decides on what was found when a module was opened and asked for a virtual machine.
pub fn decide(loaded: Loaded) -> (result: Result<evmc_vm, evmc_loader_error_code>)
    ensures
        result == verdict(loaded),
{
    match loaded {
        Loaded::NotOpened => Err(evmc_loader_error_code::EVMC_LOADER_CANNOT_OPEN),
        Loaded::NoCreateFunction => Err(evmc_loader_error_code::EVMC_LOADER_SYMBOL_NOT_FOUND),
        Loaded::Created(None) => Err(evmc_loader_error_code::EVMC_LOADER_VM_CREATION_FAILURE),
        Loaded::Created(Some(instance)) => if instance.abi_version == EVMC_ABI_VERSION {
            Ok(instance)
        } else {
            Err(evmc_loader_error_code::EVMC_LOADER_ABI_VERSION_MISMATCH)
        },
    }
}

/// The error, if any, that a virtual machine's answer to an option makes of loading it.
pub fn option_error(answer: evmc_set_option_result) -> (error: Option<evmc_loader_error_code>)
    ensures
        error == match answer {
            evmc_set_option_result::EVMC_SET_OPTION_SUCCESS => None,
            evmc_set_option_result::EVMC_SET_OPTION_INVALID_NAME => Some(
                evmc_loader_error_code::EVMC_LOADER_INVALID_OPTION_NAME,
            ),
            evmc_set_option_result::EVMC_SET_OPTION_INVALID_VALUE => Some(
                evmc_loader_error_code::EVMC_LOADER_INVALID_OPTION_VALUE,
            ),
        },
{
    match answer {
        evmc_set_option_result::EVMC_SET_OPTION_SUCCESS => None,
        evmc_set_option_result::EVMC_SET_OPTION_INVALID_NAME => Some(
            evmc_loader_error_code::EVMC_LOADER_INVALID_OPTION_NAME,
        ),
        evmc_set_option_result::EVMC_SET_OPTION_INVALID_VALUE => Some(
            evmc_loader_error_code::EVMC_LOADER_INVALID_OPTION_VALUE,
        ),
    }
}

/// Whether an error code and an instance can come out of one run of the loader: there is
/// an instance exactly when the code is success.
pub open spec fn consistent(error_code: evmc_loader_error_code, instance: Option<evmc_vm>) -> bool {
    (error_code == evmc_loader_error_code::EVMC_LOADER_SUCCESS) == (instance is Some)
}

/// Tests `consistent`.
pub fn is_consistent(error_code: evmc_loader_error_code, instance: &Option<evmc_vm>) -> (ok: bool)
    ensures
        ok == consistent(error_code, *instance),
{
    let success = match error_code {
        evmc_loader_error_code::EVMC_LOADER_SUCCESS => true,
        _ => false,
    };
    success == instance.is_some()
}

/// What loading and configuring a virtual machine ends with, given what the loader
/// reported: the loader's error code and message where it failed; the instance where it
/// succeeded and the instance speaks this library's version of the interface; and the
/// error of a version mismatch, with a message of this library, where it succeeded with an
/// instance that speaks another version.
pub open spec fn outcome(
    error_code: evmc_loader_error_code,
    instance: Option<evmc_vm>,
    error_msg: Seq<char>,
) -> Result<evmc_vm, (evmc_loader_error_code, Seq<char>)> {
    match instance {
        None => Err((error_code, error_msg)),
        Some(loaded) => if loaded.abi_version == EVMC_ABI_VERSION {
            Ok(loaded)
        } else {
            Err(
                (
                    evmc_loader_error_code::EVMC_LOADER_ABI_VERSION_MISMATCH,
                    "EVMC ABI version mismatch"@,
                ),
            )
        },
    }
}

/// Decides what loading and configuring a virtual machine ended with, once the loader has
/// reported its error code, the instance if it made one, and its last error message.
///
/// A loader that reports success and no instance, or an instance and no success, is at
/// fault: test `is_consistent` and stop on it.
pub fn load_outcome(
    error_code: evmc_loader_error_code,
    instance: Option<evmc_vm>,
    error_msg: String,
) -> (result: Result<evmc_vm, (evmc_loader_error_code, String)>)
    requires
        consistent(error_code, instance),
    ensures
        match result {
            Ok(loaded) => outcome(error_code, instance, error_msg@) == Ok::<
                evmc_vm,
                (evmc_loader_error_code, Seq<char>),
            >(loaded),
            Err((code, msg)) => outcome(error_code, instance, error_msg@) == Err::<
                evmc_vm,
                (evmc_loader_error_code, Seq<char>),
            >((code, msg@)),
        },
{
    match decide(Loaded::Created(instance)) {
        Ok(loaded) => Ok(loaded),
        Err(evmc_loader_error_code::EVMC_LOADER_ABI_VERSION_MISMATCH) => Err(
            (
                evmc_loader_error_code::EVMC_LOADER_ABI_VERSION_MISMATCH,
                String::from_str("EVMC ABI version mismatch"),
            ),
        ),
        Err(_) => Err((error_code, error_msg)),
    }
}

/// Loads and configures a virtual machine. The native loader is reached through `loader`,
/// which is handed the configuration and reports its error code, the instance if it made
/// one, and its last error message; what comes back is what `load_outcome` makes of the
/// report.
///
/// This is for a loader that is known to report an instance exactly when it reports
/// success.
pub fn load_and_configure<F>(config: &str, loader: F) -> (result: Result<
    evmc_vm,
    (evmc_loader_error_code, String),
>) where F: FnOnce(&str) -> (evmc_loader_error_code, Option<evmc_vm>, String)
    requires
        call_requires(loader, (config,)),
        forall|report: (evmc_loader_error_code, Option<evmc_vm>, String)|
            #[trigger] call_ensures(loader, (config,), report) ==> consistent(report.0, report.1),
    ensures
        exists|report: (evmc_loader_error_code, Option<evmc_vm>, String)|
            #[trigger] call_ensures(loader, (config,), report) && match result {
                Ok(loaded) => outcome(report.0, report.1, report.2@) == Ok::<
                    evmc_vm,
                    (evmc_loader_error_code, Seq<char>),
                >(loaded),
                Err((code, msg)) => outcome(report.0, report.1, report.2@) == Err::<
                    evmc_vm,
                    (evmc_loader_error_code, Seq<char>),
                >((code, msg@)),
            },
{
    let report = loader(config);
    let (error_code, instance, error_msg) = report;
    load_outcome(error_code, instance, error_msg)
}

/// Whatever was found, a machine comes out of it only if it speaks this library's version
/// of the interface; and where a machine was made that speaks another version, what comes
/// out is the error that says so, and not the machine.
pub proof fn lemma_abi_version_checked(loaded: Loaded)
    ensures
        verdict(loaded) matches Ok(instance) ==> instance.abi_version == EVMC_ABI_VERSION,
        loaded matches Loaded::Created(Some(instance)) ==> (instance.abi_version
            != EVMC_ABI_VERSION <==> verdict(loaded) == Err::<evmc_vm, evmc_loader_error_code>(
            evmc_loader_error_code::EVMC_LOADER_ABI_VERSION_MISMATCH,
        )),
{
}

/// The same of loading and configuring: whatever the loader reported, a machine that
/// speaks another version of the interface does not come out, and the error that comes out
/// in its place is that of a version mismatch.
pub proof fn lemma_outcome_abi_version_checked(
    error_code: evmc_loader_error_code,
    instance: Option<evmc_vm>,
    error_msg: Seq<char>,
)
    ensures
        outcome(error_code, instance, error_msg) matches Ok(loaded) ==> loaded.abi_version
            == EVMC_ABI_VERSION,
        instance matches Some(loaded) && loaded.abi_version != EVMC_ABI_VERSION ==> (outcome(
            error_code,
            instance,
            error_msg,
        ) matches Err(e) && e.0 == evmc_loader_error_code::EVMC_LOADER_ABI_VERSION_MISMATCH),
{
}

} // verus!
