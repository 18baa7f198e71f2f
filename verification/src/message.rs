//! The message that starts an execution, as an owned value, and its conversion to and from
//! the form in which it crosses the boundary.

use crate::ffi::{evmc_message, WireMessage};
use crate::types::{Address, Bytes32, MessageKind, Uint256};
use vstd::prelude::*;
use vstd::slice::slice_to_vec;

verus! {

/// EVMC execution message structure.
#[derive(Debug)]
pub struct ExecutionMessage {
    kind: MessageKind,
    flags: u32,
    depth: i32,
    gas: i64,
    recipient: Address,
    sender: Address,
    input: Option<Vec<u8>>,
    value: Uint256,
    create2_salt: Bytes32,
    code_address: Address,
}

/// What an `ExecutionMessage` holds, for contracts.
pub struct MessageView {
    pub kind: MessageKind,
    pub flags: u32,
    pub depth: i32,
    pub gas: i64,
    pub recipient: Address,
    pub sender: Address,
    pub input: Option<Seq<u8>>,
    pub value: Uint256,
    pub create2_salt: Bytes32,
    pub code_address: Address,
}

impl MessageView {
    /// Whether the input, where there is one, has a length that a machine word holds, as
    /// that of every message in memory does.
    pub open spec fn representable(self) -> bool {
        self.input matches Some(bytes) ==> bytes.len() <= usize::MAX
    }

    /// Whether the message can be told apart on the wire from every other message: its
    /// input, where it has one, is not empty. The wire has one form for "no input", a null
    /// pointer with size zero, and an empty input takes that form too.
    pub open spec fn valid(self) -> bool {
        &&& self.representable()
        &&& self.input matches Some(bytes) ==> bytes.len() > 0
    }

    /// The message as it crosses the boundary: every fixed field as it is, and the input as
    /// a pointer and a size that agree.
    pub open spec fn to_wire(self) -> WireMessage {
        WireMessage {
            kind: self.kind,
            flags: self.flags,
            depth: self.depth,
            gas: self.gas,
            recipient: self.recipient,
            sender: self.sender,
            input_data: match self.input {
                Some(bytes) if bytes.len() > 0 => Some(bytes),
                _ => None,
            },
            input_size: match self.input {
                Some(bytes) => bytes.len() as usize,
                None => 0,
            },
            value: self.value,
            create2_salt: self.create2_salt,
            code_address: self.code_address,
        }
    }

    /// The message that a well-formed wire message stands for: every fixed field as it is,
    /// and the bytes behind the input pointer, if it is not null.
    pub open spec fn from_wire(wire: WireMessage) -> MessageView {
        MessageView {
            kind: wire.kind,
            flags: wire.flags,
            depth: wire.depth,
            gas: wire.gas,
            recipient: wire.recipient,
            sender: wire.sender,
            input: wire.input_data,
            value: wire.value,
            create2_salt: wire.create2_salt,
            code_address: wire.code_address,
        }
    }
}

impl View for ExecutionMessage {
    type V = MessageView;

    closed spec fn view(&self) -> MessageView {
        MessageView {
            kind: self.kind,
            flags: self.flags,
            depth: self.depth,
            gas: self.gas,
            recipient: self.recipient,
            sender: self.sender,
            input: match self.input {
                Some(bytes) => Some(bytes@),
                None => None,
            },
            value: self.value,
            create2_salt: self.create2_salt,
            code_address: self.code_address,
        }
    }
}

impl ExecutionMessage {
    /// Makes a message of the given parts. The input is copied.
    pub fn new(
        kind: MessageKind,
        flags: u32,
        depth: i32,
        gas: i64,
        recipient: Address,
        sender: Address,
        input: Option<&[u8]>,
        value: Uint256,
        create2_salt: Bytes32,
        code_address: Address,
    ) -> (message: Self)
        ensures
            message@ == (MessageView {
                kind,
                flags,
                depth,
                gas,
                recipient,
                sender,
                input: match input {
                    Some(bytes) => Some(bytes@),
                    None => None,
                },
                value,
                create2_salt,
                code_address,
            }),
    {
        ExecutionMessage {
            kind,
            flags,
            depth,
            gas,
            recipient,
            sender,
            input: match input {
                Some(bytes) => Some(slice_to_vec(bytes)),
                None => None,
            },
            value,
            create2_salt,
            code_address,
        }
    }

    /// Read the message kind.
    pub fn kind(&self) -> (kind: MessageKind)
        ensures
            kind == self@.kind,
    {
        self.kind
    }

    /// Read the message flags.
    pub fn flags(&self) -> (flags: u32)
        ensures
            flags == self@.flags,
    {
        self.flags
    }

    /// Read the call depth.
    pub fn depth(&self) -> (depth: i32)
        ensures
            depth == self@.depth,
    {
        self.depth
    }

    /// Read the gas limit supplied with the message.
    pub fn gas(&self) -> (gas: i64)
        ensures
            gas == self@.gas,
    {
        self.gas
    }

    /// Read the recipient address of the message.
    pub fn recipient(&self) -> (recipient: &Address)
        ensures
            *recipient == self@.recipient,
    {
        &self.recipient
    }

    /// Read the sender address of the message.
    pub fn sender(&self) -> (sender: &Address)
        ensures
            *sender == self@.sender,
    {
        &self.sender
    }

    /// Read the optional input message.
    pub fn input(&self) -> (input: Option<&Vec<u8>>)
        ensures
            match input {
                Some(bytes) => self@.input == Some(bytes@),
                None => self@.input is None,
            },
    {
        self.input.as_ref()
    }

    /// Read the value of the message.
    pub fn value(&self) -> (value: &Uint256)
        ensures
            *value == self@.value,
    {
        &self.value
    }

    /// Read the salt for CREATE2. Only valid if the message kind is CREATE2.
    pub fn create2_salt(&self) -> (salt: &Bytes32)
        ensures
            *salt == self@.create2_salt,
    {
        &self.create2_salt
    }

    /// Read the code address of the message.
    pub fn code_address(&self) -> (code_address: &Address)
        ensures
            *code_address == self@.code_address,
    {
        &self.code_address
    }

    /// Whether the message's input, where it has one, is not empty.
    pub fn is_valid(&self) -> (ok: bool)
        ensures
            ok == self@.valid(),
    {
        match &self.input {
            Some(bytes) => bytes.len() > 0,
            None => true,
        }
    }

    /// The message in the form in which it crosses the boundary. The input is lent to the
    /// wire message, which therefore lives no longer than `self`. A message without input,
    /// or with an empty one, gets a null pointer and size zero, never a pointer to nothing.
    pub fn to_wire(&self) -> (wire: evmc_message<'_>)
        ensures
            wire@ == self@.to_wire(),
            wire@.well_formed(),
            (self@.input is None || self@.input->0.len() == 0) ==> wire.input_data is None
                && wire.input_size == 0,
    {
        let input_data: Option<&[u8]> = match &self.input {
            Some(bytes) => if bytes.len() > 0 {
                Some(bytes.as_slice())
            } else {
                None
            },
            None => None,
        };
        let input_size: usize = match &self.input {
            Some(bytes) => bytes.len(),
            None => 0,
        };
        evmc_message {
            kind: self.kind,
            flags: self.flags,
            depth: self.depth,
            gas: self.gas,
            recipient: self.recipient,
            sender: self.sender,
            input_data,
            input_size,
            value: self.value,
            create2_salt: self.create2_salt,
            code_address: self.code_address,
        }
    }

    /// Takes a message that came over the boundary. The input is copied, so that the
    /// message may outlive the call that the wire message was lent for.
    ///
    /// A wire message whose input pointer and size disagree is a fault of the other side:
    /// test `is_well_formed` and stop on it.
    pub fn from_wire(wire: &evmc_message) -> (message: Self)
        requires
            wire@.well_formed(),
        ensures
            message@ == MessageView::from_wire(wire@),
            message@.valid(),
    {
        ExecutionMessage {
            kind: wire.kind,
            flags: wire.flags,
            depth: wire.depth,
            gas: wire.gas,
            recipient: wire.recipient,
            sender: wire.sender,
            input: match wire.input_data {
                Some(bytes) => Some(slice_to_vec(bytes)),
                None => None,
            },
            value: wire.value,
            create2_salt: wire.create2_salt,
            code_address: wire.code_address,
        }
    }
}

/// A valid message that goes to the wire and comes back is the message it was, every field
/// of it. What is on the wire in between is well formed.
pub proof fn lemma_message_round_trip(message: MessageView)
    requires
        message.valid(),
    ensures
        message.to_wire().well_formed(),
        MessageView::from_wire(message.to_wire()) == message,
{
}

/// A well-formed wire message that is taken in and sent out again is the wire message it
/// was, and what was taken in is a valid message.
pub proof fn lemma_wire_message_round_trip(wire: WireMessage)
    requires
        wire.well_formed(),
    ensures
        MessageView::from_wire(wire).valid(),
        MessageView::from_wire(wire).to_wire() == wire,
{
}

/// Whatever the message in memory, what goes to the wire is well formed: the input pointer is null
/// exactly when the input size is zero. A message without input goes out as a null pointer
/// with size zero.
pub proof fn lemma_message_to_wire_well_formed(message: MessageView)
    requires
        message.representable(),
    ensures
        message.to_wire().well_formed(),
        message.input is None ==> message.to_wire().input_data is None
            && message.to_wire().input_size == 0,
{
}

} // verus!
