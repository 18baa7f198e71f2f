//! The outcome of loading a virtual machine, as a client reads it.

use crate::ffi::evmc_vm;
use vstd::prelude::*;

verus! {

#[derive(Debug, Clone, Copy, PartialEq, Eq)]
pub enum EvmcLoaderErrorCode {
    /// The loader succeeded.
    EvmcLoaderSucces,
    /// The loader cannot open the given file name.
    EvmcLoaderCannotOpen,
    /// The VM create function not found.
    EvmcLoaderSymbolNotFound,
    /// The invalid argument value provided.
    EvmcLoaderInvalidArgument,
    /// The creation of a VM instance has failed.
    EvmcLoaderInstanceCreationFailure,
    /// The ABI version of the VM instance has mismatched.
    EvmcLoaderAbiVersionMismatch,
    /// The VM option is invalid.
    EvmcLoaderInvalidOptionName,
    /// The VM option value is invalid.
    EvmcLoaderInvalidOptionValue,
}

impl EvmcLoaderErrorCode {
    /// The number that the loader reports for this code.
    pub open spec fn number(self) -> int {
        match self {
            EvmcLoaderErrorCode::EvmcLoaderSucces => 0,
            EvmcLoaderErrorCode::EvmcLoaderCannotOpen => 1,
            EvmcLoaderErrorCode::EvmcLoaderSymbolNotFound => 2,
            EvmcLoaderErrorCode::EvmcLoaderInvalidArgument => 3,
            EvmcLoaderErrorCode::EvmcLoaderInstanceCreationFailure => 4,
            EvmcLoaderErrorCode::EvmcLoaderAbiVersionMismatch => 5,
            EvmcLoaderErrorCode::EvmcLoaderInvalidOptionName => 6,
            EvmcLoaderErrorCode::EvmcLoaderInvalidOptionValue => 7,
        }
    }

    /// The code that the number stands for; `None` where it stands for none.
    pub open spec fn of_number(n: int) -> Option<Self> {
        if n == 0 {
            Some(EvmcLoaderErrorCode::EvmcLoaderSucces)
        } else if n == 1 {
            Some(EvmcLoaderErrorCode::EvmcLoaderCannotOpen)
        } else if n == 2 {
            Some(EvmcLoaderErrorCode::EvmcLoaderSymbolNotFound)
        } else if n == 3 {
            Some(EvmcLoaderErrorCode::EvmcLoaderInvalidArgument)
        } else if n == 4 {
            Some(EvmcLoaderErrorCode::EvmcLoaderInstanceCreationFailure)
        } else if n == 5 {
            Some(EvmcLoaderErrorCode::EvmcLoaderAbiVersionMismatch)
        } else if n == 6 {
            Some(EvmcLoaderErrorCode::EvmcLoaderInvalidOptionName)
        } else if n == 7 {
            Some(EvmcLoaderErrorCode::EvmcLoaderInvalidOptionValue)
        } else {
            None
        }
    }

    /// The code that the loader means by `n`, if it is one of the codes.
    pub fn from_i32(n: i32) -> (code: Option<Self>)
        ensures
            code == Self::of_number(n as int),
    {
        match n {
            0 => Some(EvmcLoaderErrorCode::EvmcLoaderSucces),
            1 => Some(EvmcLoaderErrorCode::EvmcLoaderCannotOpen),
            2 => Some(EvmcLoaderErrorCode::EvmcLoaderSymbolNotFound),
            3 => Some(EvmcLoaderErrorCode::EvmcLoaderInvalidArgument),
            4 => Some(EvmcLoaderErrorCode::EvmcLoaderInstanceCreationFailure),
            5 => Some(EvmcLoaderErrorCode::EvmcLoaderAbiVersionMismatch),
            6 => Some(EvmcLoaderErrorCode::EvmcLoaderInvalidOptionName),
            7 => Some(EvmcLoaderErrorCode::EvmcLoaderInvalidOptionValue),
            _ => None,
        }
    }

    /// Every code is read back from its number, and a number is read as a code only if it
    /// is that code's number.
    pub proof fn lemma_number_round_trip(self, n: int)
        ensures
            Self::of_number(self.number()) == Some(self),
            Self::of_number(n) == Some(self) ==> self.number() == n,
    {
    }
}

/// Success as it is, and every other code as the error that the loader's last message
/// tells. The message is asked for, through `last_error_msg`, only where there is an error.
pub fn error<G>(err: EvmcLoaderErrorCode, last_error_msg: G) -> (result: Result<
    EvmcLoaderErrorCode,
    &'static str,
>) where G: FnOnce() -> &'static str
    requires
        call_requires(last_error_msg, ()),
    ensures
        match result {
            Ok(code) => err == EvmcLoaderErrorCode::EvmcLoaderSucces && code == err,
            Err(msg) => err != EvmcLoaderErrorCode::EvmcLoaderSucces && call_ensures(
                last_error_msg,
                (),
                msg,
            ),
        },
{
    match err {
        EvmcLoaderErrorCode::EvmcLoaderSucces => Ok(EvmcLoaderErrorCode::EvmcLoaderSucces),
        _ => Err(last_error_msg()),
    }
}

/// Loads a virtual machine. The native loader is reached through `native`, which is handed
/// the file name and reports the instance, if it made one, and its error code as a number;
/// what comes back is the instance as it was reported, and the code as `error` reads it.
///
/// This is for a loader that is known to report none but its own codes.
pub fn load_and_create<F, G>(fname: &str, native: F, last_error_msg: G) -> (result: (
    Option<evmc_vm>,
    Result<EvmcLoaderErrorCode, &'static str>,
)) where F: FnOnce(&str) -> (Option<evmc_vm>, i32), G: FnOnce() -> &'static str
    requires
        call_requires(native, (fname,)),
        call_requires(last_error_msg, ()),
        forall|report: (Option<evmc_vm>, i32)|
            #[trigger] call_ensures(native, (fname,), report) ==> EvmcLoaderErrorCode::of_number(
                report.1 as int,
            ) is Some,
    ensures
        exists|report: (Option<evmc_vm>, i32)|
            #[trigger] call_ensures(native, (fname,), report) && result.0 == report.0
                && match result.1 {
                Ok(code) => code == EvmcLoaderErrorCode::EvmcLoaderSucces && report.1 == 0,
                Err(msg) => report.1 != 0 && call_ensures(last_error_msg, (), msg),
            },
{
    let (instance, error_code) = native(fname);
    (instance, error(EvmcLoaderErrorCode::from_i32(error_code).unwrap(), last_error_msg))
}

} // verus!
