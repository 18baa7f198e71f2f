//! The binary interface between an Ethereum client and a virtual machine, as plain values.
//!
//! Every type here mirrors one declaration of the interface, field for field and under the
//! interface's own name. Where the interface passes a pointer, the type holds what the pointer
//! stands for: `None` for a null pointer, `Some` with the bytes behind it otherwise. Where it
//! passes a function pointer, the type holds whether the slot is filled.
#![allow(non_camel_case_types)]

use vstd::prelude::*;

verus! {

/// The version of the binary interface that this library speaks.
pub const EVMC_ABI_VERSION: i32 = 10;

/// A 20-byte account address.
#[derive(Clone, Copy, Debug, PartialEq, Eq, Hash)]
pub struct evmc_address {
    pub bytes: [u8; 20],
}

/// A 32-byte value: a hash, a storage key or a storage value.
#[derive(Clone, Copy, Debug, PartialEq, Eq, Hash)]
pub struct evmc_bytes32 {
    pub bytes: [u8; 32],
}

/// A 256-bit unsigned integer, most significant byte first.
pub type evmc_uint256be = evmc_bytes32;

impl evmc_address {
    /// Whether every byte is zero.
    pub open spec fn is_zero(&self) -> bool {
        forall|i: int| 0 <= i < 20 ==> self.bytes[i] == 0u8
    }
}

impl evmc_bytes32 {
    /// Whether every byte is zero.
    pub open spec fn is_zero(&self) -> bool {
        forall|i: int| 0 <= i < 32 ==> self.bytes[i] == 0u8
    }
}

impl Default for evmc_address {
    /// The all-zero address.
    fn default() -> (r: Self)
        ensures
            r.is_zero(),
    {
        evmc_address { bytes: [0u8; 20] }
    }
}

impl Default for evmc_bytes32 {
    /// The all-zero value.
    fn default() -> (r: Self)
        ensures
            r.is_zero(),
    {
        evmc_bytes32 { bytes: [0u8; 32] }
    }
}

/// Two all-zero addresses are the same address.
pub proof fn lemma_zero_address_unique(a: evmc_address, b: evmc_address)
    requires
        a.is_zero(),
        b.is_zero(),
    ensures
        a == b,
{
    assert(a.bytes =~= b.bytes);
}

/// Two all-zero 32-byte values are the same value.
pub proof fn lemma_zero_bytes32_unique(a: evmc_bytes32, b: evmc_bytes32)
    requires
        a.is_zero(),
        b.is_zero(),
    ensures
        a == b,
{
    assert(a.bytes =~= b.bytes);
}

/// The kind of a call-like message.
#[derive(Clone, Copy, Debug, PartialEq, Eq, Hash)]
pub enum evmc_call_kind {
    /// A plain call.
    EVMC_CALL,
    /// A call that runs the callee's code with the caller's storage, sender and value.
    EVMC_DELEGATECALL,
    /// A call that runs the callee's code with the caller's storage.
    EVMC_CALLCODE,
    /// Creation of a contract.
    EVMC_CREATE,
    /// Creation of a contract at an address derived from a salt.
    EVMC_CREATE2,
}

impl evmc_call_kind {
    /// The number that stands for this kind on the wire.
    pub open spec fn wire_value(self) -> int {
        match self {
            evmc_call_kind::EVMC_CALL => 0,
            evmc_call_kind::EVMC_DELEGATECALL => 1,
            evmc_call_kind::EVMC_CALLCODE => 2,
            evmc_call_kind::EVMC_CREATE => 3,
            evmc_call_kind::EVMC_CREATE2 => 4,
        }
    }

    /// The kind that `raw` stands for; `None` where it stands for none.
    pub open spec fn of_wire_value(raw: int) -> Option<Self> {
        if raw == 0 {
            Some(evmc_call_kind::EVMC_CALL)
        } else if raw == 1 {
            Some(evmc_call_kind::EVMC_DELEGATECALL)
        } else if raw == 2 {
            Some(evmc_call_kind::EVMC_CALLCODE)
        } else if raw == 3 {
            Some(evmc_call_kind::EVMC_CREATE)
        } else if raw == 4 {
            Some(evmc_call_kind::EVMC_CREATE2)
        } else {
            None
        }
    }

    /// Writes the wire value.
    pub fn to_wire(self) -> (raw: u32)
        ensures
            raw == self.wire_value(),
    {
        match self {
            evmc_call_kind::EVMC_CALL => 0,
            evmc_call_kind::EVMC_DELEGATECALL => 1,
            evmc_call_kind::EVMC_CALLCODE => 2,
            evmc_call_kind::EVMC_CREATE => 3,
            evmc_call_kind::EVMC_CREATE2 => 4,
        }
    }

    /// Reads a kind that came over the wire. `None` means that the other side speaks of a
    /// kind this library does not know: the caller must stop, not go on with a stand-in.
    pub fn from_wire(raw: u32) -> (kind: Option<Self>)
        ensures
            kind == Self::of_wire_value(raw as int),
    {
        match raw {
            0 => Some(evmc_call_kind::EVMC_CALL),
            1 => Some(evmc_call_kind::EVMC_DELEGATECALL),
            2 => Some(evmc_call_kind::EVMC_CALLCODE),
            3 => Some(evmc_call_kind::EVMC_CREATE),
            4 => Some(evmc_call_kind::EVMC_CREATE2),
            _ => None,
        }
    }

    /// Every kind comes back unchanged from its wire value.
    pub proof fn lemma_wire_round_trip(self)
        ensures
            Self::of_wire_value(self.wire_value()) == Some(self),
    {
    }

    /// A number is read as a kind exactly when it is that kind's wire value, and as none
    /// exactly when no kind has it.
    pub proof fn lemma_wire_exact(raw: int)
        ensures
            forall|k: Self| Self::of_wire_value(raw) == Some(k) <==> k.wire_value() == raw,
            Self::of_wire_value(raw) is None <==> forall|k: Self| k.wire_value() != raw,
    {
        if Self::of_wire_value(raw) is Some {
            let k = Self::of_wire_value(raw)->0;
            assert(k.wire_value() == raw);
        }
    }
}

/// A flag of a message. The flags of a message are its `flags` field, one bit each.
#[derive(Clone, Copy, Debug, PartialEq, Eq, Hash)]
pub enum evmc_flags {
    /// The call must not change state.
    EVMC_STATIC,
}

impl evmc_flags {
    /// The number that stands for this flag on the wire.
    pub open spec fn wire_value(self) -> int {
        match self {
            evmc_flags::EVMC_STATIC => 1,
        }
    }

    /// The flag that `raw` stands for; `None` where it stands for none.
    pub open spec fn of_wire_value(raw: int) -> Option<Self> {
        if raw == 1 {
            Some(evmc_flags::EVMC_STATIC)
        } else {
            None
        }
    }

    /// Writes the wire value.
    pub fn to_wire(self) -> (raw: u32)
        ensures
            raw == self.wire_value(),
    {
        match self {
            evmc_flags::EVMC_STATIC => 1,
        }
    }

    /// Reads a flag that came over the wire. `None` means that the other side speaks
    /// of one this library does not know: the caller must stop, not go on with a stand-in.
    pub fn from_wire(raw: u32) -> (read: Option<Self>)
        ensures
            read == Self::of_wire_value(raw as int),
    {
        match raw {
            1 => Some(evmc_flags::EVMC_STATIC),
            _ => None,
        }
    }

    /// Every flag comes back unchanged from its wire value.
    pub proof fn lemma_wire_round_trip(self)
        ensures
            Self::of_wire_value(self.wire_value()) == Some(self),
    {
    }

    /// A number is read as a flag exactly when it is that flag's wire value, and as
    /// none exactly when no flag has it.
    pub proof fn lemma_wire_exact(raw: int)
        ensures
            forall|k: Self| Self::of_wire_value(raw) == Some(k) <==> k.wire_value() == raw,
            Self::of_wire_value(raw) is None <==> forall|k: Self| k.wire_value() != raw,
    {
        if Self::of_wire_value(raw) is Some {
            let k = Self::of_wire_value(raw)->0;
            assert(k.wire_value() == raw);
        }
    }
}

/// How an execution ended. Zero is success, positive codes are failures of the executed
/// code, negative codes are failures of the virtual machine itself.
#[derive(Clone, Copy, Debug, PartialEq, Eq, Hash)]
pub enum evmc_status_code {
    /// Execution finished with success.
    EVMC_SUCCESS,
    /// Generic execution failure.
    EVMC_FAILURE,
    /// Execution ended with a revert: state changes are dropped, gas and output returned.
    EVMC_REVERT,
    /// The execution ran out of gas.
    EVMC_OUT_OF_GAS,
    /// The designated invalid instruction was hit.
    EVMC_INVALID_INSTRUCTION,
    /// An undefined instruction was met.
    EVMC_UNDEFINED_INSTRUCTION,
    /// The stack grew past its limit.
    EVMC_STACK_OVERFLOW,
    /// An instruction needed more stack items than there were.
    EVMC_STACK_UNDERFLOW,
    /// A jump went to a place that is no jump destination.
    EVMC_BAD_JUMP_DESTINATION,
    /// Memory was read outside of what may be read.
    EVMC_INVALID_MEMORY_ACCESS,
    /// The call depth went past its limit.
    EVMC_CALL_DEPTH_EXCEEDED,
    /// A state change was tried in a static call.
    EVMC_STATIC_MODE_VIOLATION,
    /// A precompiled or system contract failed.
    EVMC_PRECOMPILE_FAILURE,
    /// The contract's code did not pass validation.
    EVMC_CONTRACT_VALIDATION_FAILURE,
    /// An argument of a state-reading instruction was out of range.
    EVMC_ARGUMENT_OUT_OF_RANGE,
    /// A WebAssembly `unreachable` instruction was hit.
    EVMC_WASM_UNREACHABLE_INSTRUCTION,
    /// A WebAssembly trap was hit.
    EVMC_WASM_TRAP,
    /// The caller cannot pay for the value transfer.
    EVMC_INSUFFICIENT_BALANCE,
    /// The virtual machine failed for a reason of its own.
    EVMC_INTERNAL_ERROR,
    /// The virtual machine declined to execute the message.
    EVMC_REJECTED,
    /// The virtual machine could not allocate the memory it needed.
    EVMC_OUT_OF_MEMORY,
}

impl evmc_status_code {
    /// The number that stands for this status code on the wire.
    pub open spec fn wire_value(self) -> int {
        match self {
            evmc_status_code::EVMC_SUCCESS => 0,
            evmc_status_code::EVMC_FAILURE => 1,
            evmc_status_code::EVMC_REVERT => 2,
            evmc_status_code::EVMC_OUT_OF_GAS => 3,
            evmc_status_code::EVMC_INVALID_INSTRUCTION => 4,
            evmc_status_code::EVMC_UNDEFINED_INSTRUCTION => 5,
            evmc_status_code::EVMC_STACK_OVERFLOW => 6,
            evmc_status_code::EVMC_STACK_UNDERFLOW => 7,
            evmc_status_code::EVMC_BAD_JUMP_DESTINATION => 8,
            evmc_status_code::EVMC_INVALID_MEMORY_ACCESS => 9,
            evmc_status_code::EVMC_CALL_DEPTH_EXCEEDED => 10,
            evmc_status_code::EVMC_STATIC_MODE_VIOLATION => 11,
            evmc_status_code::EVMC_PRECOMPILE_FAILURE => 12,
            evmc_status_code::EVMC_CONTRACT_VALIDATION_FAILURE => 13,
            evmc_status_code::EVMC_ARGUMENT_OUT_OF_RANGE => 14,
            evmc_status_code::EVMC_WASM_UNREACHABLE_INSTRUCTION => 15,
            evmc_status_code::EVMC_WASM_TRAP => 16,
            evmc_status_code::EVMC_INSUFFICIENT_BALANCE => 17,
            evmc_status_code::EVMC_INTERNAL_ERROR => -1,
            evmc_status_code::EVMC_REJECTED => -2,
            evmc_status_code::EVMC_OUT_OF_MEMORY => -3,
        }
    }

    /// The status code that `raw` stands for; `None` where it stands for none.
    pub open spec fn of_wire_value(raw: int) -> Option<Self> {
        if raw == 0 {
            Some(evmc_status_code::EVMC_SUCCESS)
        } else if raw == 1 {
            Some(evmc_status_code::EVMC_FAILURE)
        } else if raw == 2 {
            Some(evmc_status_code::EVMC_REVERT)
        } else if raw == 3 {
            Some(evmc_status_code::EVMC_OUT_OF_GAS)
        } else if raw == 4 {
            Some(evmc_status_code::EVMC_INVALID_INSTRUCTION)
        } else if raw == 5 {
            Some(evmc_status_code::EVMC_UNDEFINED_INSTRUCTION)
        } else if raw == 6 {
            Some(evmc_status_code::EVMC_STACK_OVERFLOW)
        } else if raw == 7 {
            Some(evmc_status_code::EVMC_STACK_UNDERFLOW)
        } else if raw == 8 {
            Some(evmc_status_code::EVMC_BAD_JUMP_DESTINATION)
        } else if raw == 9 {
            Some(evmc_status_code::EVMC_INVALID_MEMORY_ACCESS)
        } else if raw == 10 {
            Some(evmc_status_code::EVMC_CALL_DEPTH_EXCEEDED)
        } else if raw == 11 {
            Some(evmc_status_code::EVMC_STATIC_MODE_VIOLATION)
        } else if raw == 12 {
            Some(evmc_status_code::EVMC_PRECOMPILE_FAILURE)
        } else if raw == 13 {
            Some(evmc_status_code::EVMC_CONTRACT_VALIDATION_FAILURE)
        } else if raw == 14 {
            Some(evmc_status_code::EVMC_ARGUMENT_OUT_OF_RANGE)
        } else if raw == 15 {
            Some(evmc_status_code::EVMC_WASM_UNREACHABLE_INSTRUCTION)
        } else if raw == 16 {
            Some(evmc_status_code::EVMC_WASM_TRAP)
        } else if raw == 17 {
            Some(evmc_status_code::EVMC_INSUFFICIENT_BALANCE)
        } else if raw == -1 {
            Some(evmc_status_code::EVMC_INTERNAL_ERROR)
        } else if raw == -2 {
            Some(evmc_status_code::EVMC_REJECTED)
        } else if raw == -3 {
            Some(evmc_status_code::EVMC_OUT_OF_MEMORY)
        } else {
            None
        }
    }

    /// Writes the wire value.
    pub fn to_wire(self) -> (raw: i32)
        ensures
            raw == self.wire_value(),
    {
        match self {
            evmc_status_code::EVMC_SUCCESS => 0,
            evmc_status_code::EVMC_FAILURE => 1,
            evmc_status_code::EVMC_REVERT => 2,
            evmc_status_code::EVMC_OUT_OF_GAS => 3,
            evmc_status_code::EVMC_INVALID_INSTRUCTION => 4,
            evmc_status_code::EVMC_UNDEFINED_INSTRUCTION => 5,
            evmc_status_code::EVMC_STACK_OVERFLOW => 6,
            evmc_status_code::EVMC_STACK_UNDERFLOW => 7,
            evmc_status_code::EVMC_BAD_JUMP_DESTINATION => 8,
            evmc_status_code::EVMC_INVALID_MEMORY_ACCESS => 9,
            evmc_status_code::EVMC_CALL_DEPTH_EXCEEDED => 10,
            evmc_status_code::EVMC_STATIC_MODE_VIOLATION => 11,
            evmc_status_code::EVMC_PRECOMPILE_FAILURE => 12,
            evmc_status_code::EVMC_CONTRACT_VALIDATION_FAILURE => 13,
            evmc_status_code::EVMC_ARGUMENT_OUT_OF_RANGE => 14,
            evmc_status_code::EVMC_WASM_UNREACHABLE_INSTRUCTION => 15,
            evmc_status_code::EVMC_WASM_TRAP => 16,
            evmc_status_code::EVMC_INSUFFICIENT_BALANCE => 17,
            evmc_status_code::EVMC_INTERNAL_ERROR => -1,
            evmc_status_code::EVMC_REJECTED => -2,
            evmc_status_code::EVMC_OUT_OF_MEMORY => -3,
        }
    }

    /// Reads a status code that came over the wire. `None` means that the other side speaks
    /// of one this library does not know: the caller must stop, not go on with a stand-in.
    pub fn from_wire(raw: i32) -> (read: Option<Self>)
        ensures
            read == Self::of_wire_value(raw as int),
    {
        match raw {
            0 => Some(evmc_status_code::EVMC_SUCCESS),
            1 => Some(evmc_status_code::EVMC_FAILURE),
            2 => Some(evmc_status_code::EVMC_REVERT),
            3 => Some(evmc_status_code::EVMC_OUT_OF_GAS),
            4 => Some(evmc_status_code::EVMC_INVALID_INSTRUCTION),
            5 => Some(evmc_status_code::EVMC_UNDEFINED_INSTRUCTION),
            6 => Some(evmc_status_code::EVMC_STACK_OVERFLOW),
            7 => Some(evmc_status_code::EVMC_STACK_UNDERFLOW),
            8 => Some(evmc_status_code::EVMC_BAD_JUMP_DESTINATION),
            9 => Some(evmc_status_code::EVMC_INVALID_MEMORY_ACCESS),
            10 => Some(evmc_status_code::EVMC_CALL_DEPTH_EXCEEDED),
            11 => Some(evmc_status_code::EVMC_STATIC_MODE_VIOLATION),
            12 => Some(evmc_status_code::EVMC_PRECOMPILE_FAILURE),
            13 => Some(evmc_status_code::EVMC_CONTRACT_VALIDATION_FAILURE),
            14 => Some(evmc_status_code::EVMC_ARGUMENT_OUT_OF_RANGE),
            15 => Some(evmc_status_code::EVMC_WASM_UNREACHABLE_INSTRUCTION),
            16 => Some(evmc_status_code::EVMC_WASM_TRAP),
            17 => Some(evmc_status_code::EVMC_INSUFFICIENT_BALANCE),
            -1 => Some(evmc_status_code::EVMC_INTERNAL_ERROR),
            -2 => Some(evmc_status_code::EVMC_REJECTED),
            -3 => Some(evmc_status_code::EVMC_OUT_OF_MEMORY),
            _ => None,
        }
    }

    /// Every status code comes back unchanged from its wire value.
    pub proof fn lemma_wire_round_trip(self)
        ensures
            Self::of_wire_value(self.wire_value()) == Some(self),
    {
    }

    /// A number is read as a status code exactly when it is that status code's wire value, and as
    /// none exactly when no status code has it.
    pub proof fn lemma_wire_exact(raw: int)
        ensures
            forall|k: Self| Self::of_wire_value(raw) == Some(k) <==> k.wire_value() == raw,
            Self::of_wire_value(raw) is None <==> forall|k: Self| k.wire_value() != raw,
    {
        if Self::of_wire_value(raw) is Some {
            let k = Self::of_wire_value(raw)->0;
            assert(k.wire_value() == raw);
        }
    }
}

/// Whether an account or storage slot had been touched before in the transaction.
#[derive(Clone, Copy, Debug, PartialEq, Eq, Hash)]
pub enum evmc_access_status {
    /// Not touched before.
    EVMC_ACCESS_COLD,
    /// Touched before.
    EVMC_ACCESS_WARM,
}

impl evmc_access_status {
    /// The number that stands for this access status on the wire.
    pub open spec fn wire_value(self) -> int {
        match self {
            evmc_access_status::EVMC_ACCESS_COLD => 0,
            evmc_access_status::EVMC_ACCESS_WARM => 1,
        }
    }

    /// The access status that `raw` stands for; `None` where it stands for none.
    pub open spec fn of_wire_value(raw: int) -> Option<Self> {
        if raw == 0 {
            Some(evmc_access_status::EVMC_ACCESS_COLD)
        } else if raw == 1 {
            Some(evmc_access_status::EVMC_ACCESS_WARM)
        } else {
            None
        }
    }

    /// Writes the wire value.
    pub fn to_wire(self) -> (raw: u32)
        ensures
            raw == self.wire_value(),
    {
        match self {
            evmc_access_status::EVMC_ACCESS_COLD => 0,
            evmc_access_status::EVMC_ACCESS_WARM => 1,
        }
    }

    /// Reads an access status that came over the wire. `None` means that the other side speaks
    /// of one this library does not know: the caller must stop, not go on with a stand-in.
    pub fn from_wire(raw: u32) -> (read: Option<Self>)
        ensures
            read == Self::of_wire_value(raw as int),
    {
        match raw {
            0 => Some(evmc_access_status::EVMC_ACCESS_COLD),
            1 => Some(evmc_access_status::EVMC_ACCESS_WARM),
            _ => None,
        }
    }

    /// Every access status comes back unchanged from its wire value.
    pub proof fn lemma_wire_round_trip(self)
        ensures
            Self::of_wire_value(self.wire_value()) == Some(self),
    {
    }

    /// A number is read as an access status exactly when it is that access status's wire value, and as
    /// none exactly when no access status has it.
    pub proof fn lemma_wire_exact(raw: int)
        ensures
            forall|k: Self| Self::of_wire_value(raw) == Some(k) <==> k.wire_value() == raw,
            Self::of_wire_value(raw) is None <==> forall|k: Self| k.wire_value() != raw,
    {
        if Self::of_wire_value(raw) is Some {
            let k = Self::of_wire_value(raw)->0;
            assert(k.wire_value() == raw);
        }
    }
}

/// What a storage write did to the slot.
#[derive(Clone, Copy, Debug, PartialEq, Eq, Hash)]
pub enum evmc_storage_status {
    /// The new value is the old one.
    EVMC_STORAGE_UNCHANGED,
    /// A non-zero value replaced another.
    EVMC_STORAGE_MODIFIED,
    /// A slot already written in this transaction was written again.
    EVMC_STORAGE_MODIFIED_AGAIN,
    /// A non-zero value replaced zero.
    EVMC_STORAGE_ADDED,
    /// Zero replaced a non-zero value.
    EVMC_STORAGE_DELETED,
}

impl evmc_storage_status {
    /// The number that stands for this storage status on the wire.
    pub open spec fn wire_value(self) -> int {
        match self {
            evmc_storage_status::EVMC_STORAGE_UNCHANGED => 0,
            evmc_storage_status::EVMC_STORAGE_MODIFIED => 1,
            evmc_storage_status::EVMC_STORAGE_MODIFIED_AGAIN => 2,
            evmc_storage_status::EVMC_STORAGE_ADDED => 3,
            evmc_storage_status::EVMC_STORAGE_DELETED => 4,
        }
    }

    /// The storage status that `raw` stands for; `None` where it stands for none.
    pub open spec fn of_wire_value(raw: int) -> Option<Self> {
        if raw == 0 {
            Some(evmc_storage_status::EVMC_STORAGE_UNCHANGED)
        } else if raw == 1 {
            Some(evmc_storage_status::EVMC_STORAGE_MODIFIED)
        } else if raw == 2 {
            Some(evmc_storage_status::EVMC_STORAGE_MODIFIED_AGAIN)
        } else if raw == 3 {
            Some(evmc_storage_status::EVMC_STORAGE_ADDED)
        } else if raw == 4 {
            Some(evmc_storage_status::EVMC_STORAGE_DELETED)
        } else {
            None
        }
    }

    /// Writes the wire value.
    pub fn to_wire(self) -> (raw: u32)
        ensures
            raw == self.wire_value(),
    {
        match self {
            evmc_storage_status::EVMC_STORAGE_UNCHANGED => 0,
            evmc_storage_status::EVMC_STORAGE_MODIFIED => 1,
            evmc_storage_status::EVMC_STORAGE_MODIFIED_AGAIN => 2,
            evmc_storage_status::EVMC_STORAGE_ADDED => 3,
            evmc_storage_status::EVMC_STORAGE_DELETED => 4,
        }
    }

    /// Reads a storage status that came over the wire. `None` means that the other side speaks
    /// of one this library does not know: the caller must stop, not go on with a stand-in.
    pub fn from_wire(raw: u32) -> (read: Option<Self>)
        ensures
            read == Self::of_wire_value(raw as int),
    {
        match raw {
            0 => Some(evmc_storage_status::EVMC_STORAGE_UNCHANGED),
            1 => Some(evmc_storage_status::EVMC_STORAGE_MODIFIED),
            2 => Some(evmc_storage_status::EVMC_STORAGE_MODIFIED_AGAIN),
            3 => Some(evmc_storage_status::EVMC_STORAGE_ADDED),
            4 => Some(evmc_storage_status::EVMC_STORAGE_DELETED),
            _ => None,
        }
    }

    /// Every storage status comes back unchanged from its wire value.
    pub proof fn lemma_wire_round_trip(self)
        ensures
            Self::of_wire_value(self.wire_value()) == Some(self),
    {
    }

    /// A number is read as a storage status exactly when it is that storage status's wire value, and as
    /// none exactly when no storage status has it.
    pub proof fn lemma_wire_exact(raw: int)
        ensures
            forall|k: Self| Self::of_wire_value(raw) == Some(k) <==> k.wire_value() == raw,
            Self::of_wire_value(raw) is None <==> forall|k: Self| k.wire_value() != raw,
    {
        if Self::of_wire_value(raw) is Some {
            let k = Self::of_wire_value(raw)->0;
            assert(k.wire_value() == raw);
        }
    }
}

/// The protocol revision whose rules an execution follows. The revisions are ordered:
/// a later one has the greater wire value.
#[derive(Clone, Copy, Debug, PartialEq, Eq, Hash)]
pub enum evmc_revision {
    /// The Frontier revision.
    EVMC_FRONTIER,
    /// The Homestead revision.
    EVMC_HOMESTEAD,
    /// The Tangerine Whistle revision.
    EVMC_TANGERINE_WHISTLE,
    /// The Spurious Dragon revision.
    EVMC_SPURIOUS_DRAGON,
    /// The Byzantium revision.
    EVMC_BYZANTIUM,
    /// The Constantinople revision.
    EVMC_CONSTANTINOPLE,
    /// The Petersburg revision.
    EVMC_PETERSBURG,
    /// The Istanbul revision.
    EVMC_ISTANBUL,
    /// The Berlin revision.
    EVMC_BERLIN,
    /// The London revision.
    EVMC_LONDON,
    /// The Paris revision.
    EVMC_PARIS,
    /// The Shanghai revision.
    EVMC_SHANGHAI,
    /// The Cancun revision.
    EVMC_CANCUN,
}

impl evmc_revision {
    /// The number that stands for this revision on the wire.
    pub open spec fn wire_value(self) -> int {
        match self {
            evmc_revision::EVMC_FRONTIER => 0,
            evmc_revision::EVMC_HOMESTEAD => 1,
            evmc_revision::EVMC_TANGERINE_WHISTLE => 2,
            evmc_revision::EVMC_SPURIOUS_DRAGON => 3,
            evmc_revision::EVMC_BYZANTIUM => 4,
            evmc_revision::EVMC_CONSTANTINOPLE => 5,
            evmc_revision::EVMC_PETERSBURG => 6,
            evmc_revision::EVMC_ISTANBUL => 7,
            evmc_revision::EVMC_BERLIN => 8,
            evmc_revision::EVMC_LONDON => 9,
            evmc_revision::EVMC_PARIS => 10,
            evmc_revision::EVMC_SHANGHAI => 11,
            evmc_revision::EVMC_CANCUN => 12,
        }
    }

    /// The revision that `raw` stands for; `None` where it stands for none.
    pub open spec fn of_wire_value(raw: int) -> Option<Self> {
        if raw == 0 {
            Some(evmc_revision::EVMC_FRONTIER)
        } else if raw == 1 {
            Some(evmc_revision::EVMC_HOMESTEAD)
        } else if raw == 2 {
            Some(evmc_revision::EVMC_TANGERINE_WHISTLE)
        } else if raw == 3 {
            Some(evmc_revision::EVMC_SPURIOUS_DRAGON)
        } else if raw == 4 {
            Some(evmc_revision::EVMC_BYZANTIUM)
        } else if raw == 5 {
            Some(evmc_revision::EVMC_CONSTANTINOPLE)
        } else if raw == 6 {
            Some(evmc_revision::EVMC_PETERSBURG)
        } else if raw == 7 {
            Some(evmc_revision::EVMC_ISTANBUL)
        } else if raw == 8 {
            Some(evmc_revision::EVMC_BERLIN)
        } else if raw == 9 {
            Some(evmc_revision::EVMC_LONDON)
        } else if raw == 10 {
            Some(evmc_revision::EVMC_PARIS)
        } else if raw == 11 {
            Some(evmc_revision::EVMC_SHANGHAI)
        } else if raw == 12 {
            Some(evmc_revision::EVMC_CANCUN)
        } else {
            None
        }
    }

    /// Writes the wire value.
    pub fn to_wire(self) -> (raw: u32)
        ensures
            raw == self.wire_value(),
    {
        match self {
            evmc_revision::EVMC_FRONTIER => 0,
            evmc_revision::EVMC_HOMESTEAD => 1,
            evmc_revision::EVMC_TANGERINE_WHISTLE => 2,
            evmc_revision::EVMC_SPURIOUS_DRAGON => 3,
            evmc_revision::EVMC_BYZANTIUM => 4,
            evmc_revision::EVMC_CONSTANTINOPLE => 5,
            evmc_revision::EVMC_PETERSBURG => 6,
            evmc_revision::EVMC_ISTANBUL => 7,
            evmc_revision::EVMC_BERLIN => 8,
            evmc_revision::EVMC_LONDON => 9,
            evmc_revision::EVMC_PARIS => 10,
            evmc_revision::EVMC_SHANGHAI => 11,
            evmc_revision::EVMC_CANCUN => 12,
        }
    }

    /// Reads a revision that came over the wire. `None` means that the other side speaks
    /// of one this library does not know: the caller must stop, not go on with a stand-in.
    pub fn from_wire(raw: u32) -> (read: Option<Self>)
        ensures
            read == Self::of_wire_value(raw as int),
    {
        match raw {
            0 => Some(evmc_revision::EVMC_FRONTIER),
            1 => Some(evmc_revision::EVMC_HOMESTEAD),
            2 => Some(evmc_revision::EVMC_TANGERINE_WHISTLE),
            3 => Some(evmc_revision::EVMC_SPURIOUS_DRAGON),
            4 => Some(evmc_revision::EVMC_BYZANTIUM),
            5 => Some(evmc_revision::EVMC_CONSTANTINOPLE),
            6 => Some(evmc_revision::EVMC_PETERSBURG),
            7 => Some(evmc_revision::EVMC_ISTANBUL),
            8 => Some(evmc_revision::EVMC_BERLIN),
            9 => Some(evmc_revision::EVMC_LONDON),
            10 => Some(evmc_revision::EVMC_PARIS),
            11 => Some(evmc_revision::EVMC_SHANGHAI),
            12 => Some(evmc_revision::EVMC_CANCUN),
            _ => None,
        }
    }

    /// Every revision comes back unchanged from its wire value.
    pub proof fn lemma_wire_round_trip(self)
        ensures
            Self::of_wire_value(self.wire_value()) == Some(self),
    {
    }

    /// A number is read as a revision exactly when it is that revision's wire value, and as
    /// none exactly when no revision has it.
    pub proof fn lemma_wire_exact(raw: int)
        ensures
            forall|k: Self| Self::of_wire_value(raw) == Some(k) <==> k.wire_value() == raw,
            Self::of_wire_value(raw) is None <==> forall|k: Self| k.wire_value() != raw,
    {
        if Self::of_wire_value(raw) is Some {
            let k = Self::of_wire_value(raw)->0;
            assert(k.wire_value() == raw);
        }
    }
}

/// Something a virtual machine can execute. A machine reports the set of its
/// capabilities as one number with one bit for each.
#[derive(Clone, Copy, Debug, PartialEq, Eq, Hash)]
pub enum evmc_capabilities {
    /// EVM bytecode.
    EVMC_CAPABILITY_EVM1,
    /// ewasm bytecode.
    EVMC_CAPABILITY_EWASM,
    /// The precompiled contracts.
    EVMC_CAPABILITY_PRECOMPILES,
}

impl evmc_capabilities {
    /// The number that stands for this capability on the wire.
    pub open spec fn wire_value(self) -> int {
        match self {
            evmc_capabilities::EVMC_CAPABILITY_EVM1 => 1,
            evmc_capabilities::EVMC_CAPABILITY_EWASM => 2,
            evmc_capabilities::EVMC_CAPABILITY_PRECOMPILES => 4,
        }
    }

    /// The capability that `raw` stands for; `None` where it stands for none.
    pub open spec fn of_wire_value(raw: int) -> Option<Self> {
        if raw == 1 {
            Some(evmc_capabilities::EVMC_CAPABILITY_EVM1)
        } else if raw == 2 {
            Some(evmc_capabilities::EVMC_CAPABILITY_EWASM)
        } else if raw == 4 {
            Some(evmc_capabilities::EVMC_CAPABILITY_PRECOMPILES)
        } else {
            None
        }
    }

    /// Writes the wire value.
    pub fn to_wire(self) -> (raw: u32)
        ensures
            raw == self.wire_value(),
    {
        match self {
            evmc_capabilities::EVMC_CAPABILITY_EVM1 => 1,
            evmc_capabilities::EVMC_CAPABILITY_EWASM => 2,
            evmc_capabilities::EVMC_CAPABILITY_PRECOMPILES => 4,
        }
    }

    /// Reads a capability that came over the wire. `None` means that the other side speaks
    /// of one this library does not know: the caller must stop, not go on with a stand-in.
    pub fn from_wire(raw: u32) -> (read: Option<Self>)
        ensures
            read == Self::of_wire_value(raw as int),
    {
        match raw {
            1 => Some(evmc_capabilities::EVMC_CAPABILITY_EVM1),
            2 => Some(evmc_capabilities::EVMC_CAPABILITY_EWASM),
            4 => Some(evmc_capabilities::EVMC_CAPABILITY_PRECOMPILES),
            _ => None,
        }
    }

    /// Every capability comes back unchanged from its wire value.
    pub proof fn lemma_wire_round_trip(self)
        ensures
            Self::of_wire_value(self.wire_value()) == Some(self),
    {
    }

    /// A number is read as a capability exactly when it is that capability's wire value, and as
    /// none exactly when no capability has it.
    pub proof fn lemma_wire_exact(raw: int)
        ensures
            forall|k: Self| Self::of_wire_value(raw) == Some(k) <==> k.wire_value() == raw,
            Self::of_wire_value(raw) is None <==> forall|k: Self| k.wire_value() != raw,
    {
        if Self::of_wire_value(raw) is Some {
            let k = Self::of_wire_value(raw)->0;
            assert(k.wire_value() == raw);
        }
    }
}

/// What a virtual machine answers when it is given an option.
#[derive(Clone, Copy, Debug, PartialEq, Eq, Hash)]
pub enum evmc_set_option_result {
    /// The option was set.
    EVMC_SET_OPTION_SUCCESS,
    /// The machine knows no option of that name.
    EVMC_SET_OPTION_INVALID_NAME,
    /// The machine does not take that value for the option.
    EVMC_SET_OPTION_INVALID_VALUE,
}

impl evmc_set_option_result {
    /// The number that stands for this result on the wire.
    pub open spec fn wire_value(self) -> int {
        match self {
            evmc_set_option_result::EVMC_SET_OPTION_SUCCESS => 0,
            evmc_set_option_result::EVMC_SET_OPTION_INVALID_NAME => 1,
            evmc_set_option_result::EVMC_SET_OPTION_INVALID_VALUE => 2,
        }
    }

    /// The result that `raw` stands for; `None` where it stands for none.
    pub open spec fn of_wire_value(raw: int) -> Option<Self> {
        if raw == 0 {
            Some(evmc_set_option_result::EVMC_SET_OPTION_SUCCESS)
        } else if raw == 1 {
            Some(evmc_set_option_result::EVMC_SET_OPTION_INVALID_NAME)
        } else if raw == 2 {
            Some(evmc_set_option_result::EVMC_SET_OPTION_INVALID_VALUE)
        } else {
            None
        }
    }

    /// Writes the wire value.
    pub fn to_wire(self) -> (raw: u32)
        ensures
            raw == self.wire_value(),
    {
        match self {
            evmc_set_option_result::EVMC_SET_OPTION_SUCCESS => 0,
            evmc_set_option_result::EVMC_SET_OPTION_INVALID_NAME => 1,
            evmc_set_option_result::EVMC_SET_OPTION_INVALID_VALUE => 2,
        }
    }

    /// Reads a result that came over the wire. `None` means that the other side speaks
    /// of one this library does not know: the caller must stop, not go on with a stand-in.
    pub fn from_wire(raw: u32) -> (read: Option<Self>)
        ensures
            read == Self::of_wire_value(raw as int),
    {
        match raw {
            0 => Some(evmc_set_option_result::EVMC_SET_OPTION_SUCCESS),
            1 => Some(evmc_set_option_result::EVMC_SET_OPTION_INVALID_NAME),
            2 => Some(evmc_set_option_result::EVMC_SET_OPTION_INVALID_VALUE),
            _ => None,
        }
    }

    /// Every result comes back unchanged from its wire value.
    pub proof fn lemma_wire_round_trip(self)
        ensures
            Self::of_wire_value(self.wire_value()) == Some(self),
    {
    }

    /// A number is read as a result exactly when it is that result's wire value, and as
    /// none exactly when no result has it.
    pub proof fn lemma_wire_exact(raw: int)
        ensures
            forall|k: Self| Self::of_wire_value(raw) == Some(k) <==> k.wire_value() == raw,
            Self::of_wire_value(raw) is None <==> forall|k: Self| k.wire_value() != raw,
    {
        if Self::of_wire_value(raw) is Some {
            let k = Self::of_wire_value(raw)->0;
            assert(k.wire_value() == raw);
        }
    }
}

/// How loading a virtual machine from a module ended.
#[derive(Clone, Copy, Debug, PartialEq, Eq, Hash)]
pub enum evmc_loader_error_code {
    /// The machine was loaded.
    EVMC_LOADER_SUCCESS,
    /// The module could not be opened.
    EVMC_LOADER_CANNOT_OPEN,
    /// The module has no function that creates a machine.
    EVMC_LOADER_SYMBOL_NOT_FOUND,
    /// An argument given to the loader is not valid.
    EVMC_LOADER_INVALID_ARGUMENT,
    /// The module's function created no machine.
    EVMC_LOADER_VM_CREATION_FAILURE,
    /// The machine speaks another version of the interface.
    EVMC_LOADER_ABI_VERSION_MISMATCH,
    /// The machine knows no option of a given name.
    EVMC_LOADER_INVALID_OPTION_NAME,
    /// The machine does not take a given option's value.
    EVMC_LOADER_INVALID_OPTION_VALUE,
    /// Loading failed in a way that has no code of its own.
    EVMC_LOADER_UNSPECIFIED_ERROR,
}

impl evmc_loader_error_code {
    /// The number that stands for this error code on the wire.
    pub open spec fn wire_value(self) -> int {
        match self {
            evmc_loader_error_code::EVMC_LOADER_SUCCESS => 0,
            evmc_loader_error_code::EVMC_LOADER_CANNOT_OPEN => 1,
            evmc_loader_error_code::EVMC_LOADER_SYMBOL_NOT_FOUND => 2,
            evmc_loader_error_code::EVMC_LOADER_INVALID_ARGUMENT => 3,
            evmc_loader_error_code::EVMC_LOADER_VM_CREATION_FAILURE => 4,
            evmc_loader_error_code::EVMC_LOADER_ABI_VERSION_MISMATCH => 5,
            evmc_loader_error_code::EVMC_LOADER_INVALID_OPTION_NAME => 6,
            evmc_loader_error_code::EVMC_LOADER_INVALID_OPTION_VALUE => 7,
            evmc_loader_error_code::EVMC_LOADER_UNSPECIFIED_ERROR => -1,
        }
    }

    /// The error code that `raw` stands for; `None` where it stands for none.
    pub open spec fn of_wire_value(raw: int) -> Option<Self> {
        if raw == 0 {
            Some(evmc_loader_error_code::EVMC_LOADER_SUCCESS)
        } else if raw == 1 {
            Some(evmc_loader_error_code::EVMC_LOADER_CANNOT_OPEN)
        } else if raw == 2 {
            Some(evmc_loader_error_code::EVMC_LOADER_SYMBOL_NOT_FOUND)
        } else if raw == 3 {
            Some(evmc_loader_error_code::EVMC_LOADER_INVALID_ARGUMENT)
        } else if raw == 4 {
            Some(evmc_loader_error_code::EVMC_LOADER_VM_CREATION_FAILURE)
        } else if raw == 5 {
            Some(evmc_loader_error_code::EVMC_LOADER_ABI_VERSION_MISMATCH)
        } else if raw == 6 {
            Some(evmc_loader_error_code::EVMC_LOADER_INVALID_OPTION_NAME)
        } else if raw == 7 {
            Some(evmc_loader_error_code::EVMC_LOADER_INVALID_OPTION_VALUE)
        } else if raw == -1 {
            Some(evmc_loader_error_code::EVMC_LOADER_UNSPECIFIED_ERROR)
        } else {
            None
        }
    }

    /// Writes the wire value.
    pub fn to_wire(self) -> (raw: i32)
        ensures
            raw == self.wire_value(),
    {
        match self {
            evmc_loader_error_code::EVMC_LOADER_SUCCESS => 0,
            evmc_loader_error_code::EVMC_LOADER_CANNOT_OPEN => 1,
            evmc_loader_error_code::EVMC_LOADER_SYMBOL_NOT_FOUND => 2,
            evmc_loader_error_code::EVMC_LOADER_INVALID_ARGUMENT => 3,
            evmc_loader_error_code::EVMC_LOADER_VM_CREATION_FAILURE => 4,
            evmc_loader_error_code::EVMC_LOADER_ABI_VERSION_MISMATCH => 5,
            evmc_loader_error_code::EVMC_LOADER_INVALID_OPTION_NAME => 6,
            evmc_loader_error_code::EVMC_LOADER_INVALID_OPTION_VALUE => 7,
            evmc_loader_error_code::EVMC_LOADER_UNSPECIFIED_ERROR => -1,
        }
    }

    /// Reads an error code that came over the wire. `None` means that the other side speaks
    /// of one this library does not know: the caller must stop, not go on with a stand-in.
    pub fn from_wire(raw: i32) -> (read: Option<Self>)
        ensures
            read == Self::of_wire_value(raw as int),
    {
        match raw {
            0 => Some(evmc_loader_error_code::EVMC_LOADER_SUCCESS),
            1 => Some(evmc_loader_error_code::EVMC_LOADER_CANNOT_OPEN),
            2 => Some(evmc_loader_error_code::EVMC_LOADER_SYMBOL_NOT_FOUND),
            3 => Some(evmc_loader_error_code::EVMC_LOADER_INVALID_ARGUMENT),
            4 => Some(evmc_loader_error_code::EVMC_LOADER_VM_CREATION_FAILURE),
            5 => Some(evmc_loader_error_code::EVMC_LOADER_ABI_VERSION_MISMATCH),
            6 => Some(evmc_loader_error_code::EVMC_LOADER_INVALID_OPTION_NAME),
            7 => Some(evmc_loader_error_code::EVMC_LOADER_INVALID_OPTION_VALUE),
            -1 => Some(evmc_loader_error_code::EVMC_LOADER_UNSPECIFIED_ERROR),
            _ => None,
        }
    }

    /// Every error code comes back unchanged from its wire value.
    pub proof fn lemma_wire_round_trip(self)
        ensures
            Self::of_wire_value(self.wire_value()) == Some(self),
    {
    }

    /// A number is read as an error code exactly when it is that error code's wire value, and as
    /// none exactly when no error code has it.
    pub proof fn lemma_wire_exact(raw: int)
        ensures
            forall|k: Self| Self::of_wire_value(raw) == Some(k) <==> k.wire_value() == raw,
            Self::of_wire_value(raw) is None <==> forall|k: Self| k.wire_value() != raw,
    {
        if Self::of_wire_value(raw) is Some {
            let k = Self::of_wire_value(raw)->0;
            assert(k.wire_value() == raw);
        }
    }
}

/// What the release callback of a result gives back when it is called.
///
/// A result that carries output owns the buffer, and whoever receives the result owes it one
/// call of the callback, after which nothing of the result may be touched. The two callbacks
/// belong to the two ways in which a result is handed over, and must not be exchanged.
#[derive(Clone, Copy, Debug, PartialEq, Eq, Hash)]
pub enum evmc_release_result_fn {
    /// For a result handed over by value: gives back the output buffer.
    Output,
    /// For a result handed over as a heap allocation: gives back the output buffer and the
    /// allocation that holds the result.
    OutputAndResult,
}

/// A message as it crosses the boundary. The input is lent, not given: `input_data` lives
/// no longer than the call that the message is made for.
#[derive(Clone, Copy, Debug)]
pub struct evmc_message<'a> {
    pub kind: evmc_call_kind,
    /// One bit for each `evmc_flags` that is set.
    pub flags: u32,
    pub depth: i32,
    pub gas: i64,
    pub recipient: evmc_address,
    pub sender: evmc_address,
    /// The input pointer: `None` when null, else the bytes it points to.
    pub input_data: Option<&'a [u8]>,
    pub input_size: usize,
    pub value: evmc_uint256be,
    /// Read by the machine only for `EVMC_CREATE2`, and transmitted always.
    pub create2_salt: evmc_bytes32,
    pub code_address: evmc_address,
}

/// What an `evmc_message` holds, for contracts.
pub struct WireMessage {
    pub kind: evmc_call_kind,
    pub flags: u32,
    pub depth: i32,
    pub gas: i64,
    pub recipient: evmc_address,
    pub sender: evmc_address,
    pub input_data: Option<Seq<u8>>,
    pub input_size: usize,
    pub value: evmc_uint256be,
    pub create2_salt: evmc_bytes32,
    pub code_address: evmc_address,
}

/// Whether a pointer and a size agree: the pointer is null exactly when the size is zero,
/// and a pointer that is not null has `size` bytes behind it.
pub open spec fn buffer_well_formed(data: Option<Seq<u8>>, size: usize) -> bool {
    match data {
        None => size == 0,
        Some(bytes) => size != 0 && bytes.len() == size,
    }
}

impl WireMessage {
    /// Whether the input pointer and the input size agree.
    pub open spec fn well_formed(self) -> bool {
        buffer_well_formed(self.input_data, self.input_size)
    }
}

impl<'a> View for evmc_message<'a> {
    type V = WireMessage;

    open spec fn view(&self) -> WireMessage {
        WireMessage {
            kind: self.kind,
            flags: self.flags,
            depth: self.depth,
            gas: self.gas,
            recipient: self.recipient,
            sender: self.sender,
            input_data: match self.input_data {
                Some(bytes) => Some(bytes@),
                None => None,
            },
            input_size: self.input_size,
            value: self.value,
            create2_salt: self.create2_salt,
            code_address: self.code_address,
        }
    }
}

impl<'a> evmc_message<'a> {
    /// Tests what the other side of the boundary is bound to: that the input pointer and
    /// the input size agree.
    pub fn is_well_formed(&self) -> (ok: bool)
        ensures
            ok == self@.well_formed(),
    {
        match self.input_data {
            None => self.input_size == 0,
            Some(bytes) => self.input_size != 0 && bytes.len() == self.input_size,
        }
    }
}

/// A result as it crosses the boundary. The output is given, not lent: the result owns
/// `output_data` until its release callback has been called.
#[derive(Debug)]
pub struct evmc_result {
    pub status_code: evmc_status_code,
    pub gas_left: i64,
    pub gas_refund: i64,
    /// The output pointer: `None` when null, else the bytes it points to.
    pub output_data: Option<Vec<u8>>,
    pub output_size: usize,
    /// The release callback; `None` where the buffer stays with the side that made the result.
    pub release: Option<evmc_release_result_fn>,
    /// Meaningful only when a create message succeeded.
    pub create_address: evmc_address,
    pub padding: [u8; 4],
}

/// What an `evmc_result` holds, for contracts.
pub struct WireResult {
    pub status_code: evmc_status_code,
    pub gas_left: i64,
    pub gas_refund: i64,
    pub output_data: Option<Seq<u8>>,
    pub output_size: usize,
    pub release: Option<evmc_release_result_fn>,
    pub create_address: evmc_address,
    pub padding: [u8; 4],
}

impl WireResult {
    /// Whether the output pointer and the output size agree.
    pub open spec fn well_formed(self) -> bool {
        buffer_well_formed(self.output_data, self.output_size)
    }

    /// Whether whoever holds this result by value may call its release callback: it has
    /// none, or the one that gives back the output only.
    pub open spec fn releasable_by_value(self) -> bool {
        self.release != Some(evmc_release_result_fn::OutputAndResult)
    }

    /// This result after its release callback has been called: the output is gone, and so
    /// is the callback. A result without a callback is what it was.
    pub open spec fn released(self) -> WireResult {
        if self.release is Some {
            WireResult { output_data: None, output_size: 0, release: None, ..self }
        } else {
            self
        }
    }
}

impl View for evmc_result {
    type V = WireResult;

    open spec fn view(&self) -> WireResult {
        WireResult {
            status_code: self.status_code,
            gas_left: self.gas_left,
            gas_refund: self.gas_refund,
            output_data: match self.output_data {
                Some(bytes) => Some(bytes@),
                None => None,
            },
            output_size: self.output_size,
            release: self.release,
            create_address: self.create_address,
            padding: self.padding,
        }
    }
}

impl evmc_result {
    /// Tests what the other side of the boundary is bound to: that the output pointer and
    /// the output size agree.
    pub fn is_well_formed(&self) -> (ok: bool)
        ensures
            ok == self@.well_formed(),
    {
        match &self.output_data {
            None => self.output_size == 0,
            Some(bytes) => self.output_size != 0 && bytes.len() == self.output_size,
        }
    }
}

/// The transaction and block that an execution belongs to.
#[derive(Clone, Copy, Debug, PartialEq, Eq, Hash)]
pub struct evmc_tx_context {
    pub tx_gas_price: evmc_uint256be,
    pub tx_origin: evmc_address,
    pub block_coinbase: evmc_address,
    pub block_number: i64,
    pub block_timestamp: i64,
    pub block_gas_limit: i64,
    pub block_prev_randao: evmc_uint256be,
    pub chain_id: evmc_uint256be,
    pub block_base_fee: evmc_uint256be,
}

/// The table of callbacks that a host hands to a virtual machine: for each slot, whether
/// the host has filled it.
#[derive(Clone, Copy, Debug, PartialEq, Eq, Hash)]
pub struct evmc_host_interface {
    pub account_exists: bool,
    pub get_storage: bool,
    pub set_storage: bool,
    pub get_balance: bool,
    pub get_code_size: bool,
    pub get_code_hash: bool,
    pub copy_code: bool,
    pub selfdestruct: bool,
    pub call: bool,
    pub get_tx_context: bool,
    pub get_block_hash: bool,
    pub emit_log: bool,
    pub access_account: bool,
    pub access_storage: bool,
}

/// A virtual machine instance as the interface describes it: the version it speaks, its
/// name and version, and for each of its entry points whether it has one.
#[derive(Debug)]
pub struct evmc_vm {
    pub abi_version: i32,
    /// The name pointer: `None` when null, else the text before the terminator.
    pub name: Option<String>,
    /// The version pointer: `None` when null, else the text before the terminator.
    pub version: Option<String>,
    pub destroy: bool,
    pub execute: bool,
    pub get_capabilities: bool,
    pub set_option: bool,
}

} // verus!
