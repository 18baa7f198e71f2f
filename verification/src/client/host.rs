//! The callbacks that a client hands to a virtual machine. Each one takes what the machine
//! passed in the interface's types, asks the client's `HostContext`, and hands the answer
//! back in the interface's types.

use crate::client::types::{Address, Bytes, Bytes32, MessageKind, StatusCode, StorageStatus};
use crate::ffi::{
    evmc_address, evmc_bytes32, evmc_host_interface, evmc_message, evmc_release_result_fn,
    evmc_result, evmc_storage_status, evmc_tx_context, evmc_uint256be, WireMessage, WireResult,
};
use vstd::prelude::*;

verus! {

/// The client's context, as the callbacks reach it.
pub struct ExtendedContext<'a, H: HostContext> {
    pub hctx: &'a mut H,
}

/// What a client answers a virtual machine. The answers are the client's own affair, so no
/// method promises anything.
pub trait HostContext {
    fn account_exists(&mut self, addr: &Address) -> bool;

    fn get_storage(&mut self, addr: &Address, key: &Bytes32) -> Bytes32;

    fn set_storage(&mut self, addr: &Address, key: &Bytes32, value: &Bytes32) -> StorageStatus;

    fn get_balance(&mut self, addr: &Address) -> Bytes32;

    fn get_code_size(&mut self, addr: &Address) -> usize;

    fn get_code_hash(&mut self, addr: &Address) -> Bytes32;

    /// Copies code of the account from `offset` on into `buffer`, and answers how many
    /// bytes it copied.
    fn copy_code(&mut self, addr: &Address, offset: &usize, buffer: &mut [u8]) -> usize;

    fn selfdestruct(&mut self, addr: &Address, beneficiary: &Address);

    /// The gas price, origin, coinbase, block number, timestamp, gas limit, previous
    /// randao, chain id and base fee, in this order.
    fn get_tx_context(&mut self) -> (
        Bytes32,
        Address,
        Address,
        i64,
        i64,
        i64,
        Bytes32,
        Bytes32,
        Bytes32,
    );

    fn get_block_hash(&mut self, number: i64) -> Bytes32;

    fn emit_log(&mut self, addr: &Address, topics: &Vec<Bytes32>, data: &Bytes);

    /// Answers with the output, the gas left, the address of a created account and the
    /// status code.
    fn call(
        &mut self,
        kind: MessageKind,
        recipient: &Address,
        sender: &Address,
        value: &Bytes32,
        input: &Bytes,
        gas: i64,
        depth: i32,
        is_static: bool,
        salt: &Bytes32,
    ) -> (Vec<u8>, i64, Address, StatusCode);
}

/// The callback table of a client: every slot is filled but the two of the access list.
pub open spec fn get_evmc_host_interface_spec() -> evmc_host_interface {
    evmc_host_interface {
        account_exists: true,
        get_storage: true,
        set_storage: true,
        get_balance: true,
        get_code_size: true,
        get_code_hash: true,
        copy_code: true,
        selfdestruct: true,
        call: true,
        get_tx_context: true,
        get_block_hash: true,
        emit_log: true,
        access_account: false,
        access_storage: false,
    }
}

/// Makes the callback table of a client.
#[verifier::when_used_as_spec(get_evmc_host_interface_spec)]
pub fn get_evmc_host_interface() -> (table: evmc_host_interface)
    ensures
        table == get_evmc_host_interface_spec(),
{
    evmc_host_interface {
        account_exists: true,
        get_storage: true,
        set_storage: true,
        get_balance: true,
        get_code_size: true,
        get_code_hash: true,
        copy_code: true,
        selfdestruct: true,
        call: true,
        get_tx_context: true,
        get_block_hash: true,
        emit_log: true,
        access_account: false,
        access_storage: false,
    }
}

/// The callback for the existence of an account. The answer is the client's own, to the
/// question about the address's bytes.
pub fn account_exists<H: HostContext>(
    context: &mut ExtendedContext<H>,
    address: &evmc_address,
) -> (exists: bool)
    ensures
        exists|asked: &mut H|
            *asked == *old(context).hctx && *final(asked) == *final(context).hctx && call_ensures(
                H::account_exists,
                (asked, &address.bytes),
                exists,
            ),
{
    context.hctx.account_exists(&address.bytes)
}

/// The callback for reading storage. The value is the client's own answer, to the
/// question about the bytes of the address and of the key.
pub fn get_storage<H: HostContext>(
    context: &mut ExtendedContext<H>,
    address: &evmc_address,
    key: &evmc_bytes32,
) -> (value: evmc_bytes32)
    ensures
        exists|asked: &mut H|
            *asked == *old(context).hctx && *final(asked) == *final(context).hctx && call_ensures(
                H::get_storage,
                (asked, &address.bytes, &key.bytes),
                value.bytes,
            ),
{
    evmc_bytes32 { bytes: context.hctx.get_storage(&address.bytes, &key.bytes) }
}

/// The callback for writing storage. The status is the client's own answer, to the bytes
/// of the address, of the key and of the value, in this order.
pub fn set_storage<H: HostContext>(
    context: &mut ExtendedContext<H>,
    address: &evmc_address,
    key: &evmc_bytes32,
    value: &evmc_bytes32,
) -> (status: evmc_storage_status)
    ensures
        exists|asked: &mut H|
            *asked == *old(context).hctx && *final(asked) == *final(context).hctx && call_ensures(
                H::set_storage,
                (asked, &address.bytes, &key.bytes, &value.bytes),
                status,
            ),
{
    context.hctx.set_storage(&address.bytes, &key.bytes, &value.bytes)
}

/// The callback for a balance. The balance is the client's own answer, to the question
/// about the address's bytes.
pub fn get_balance<H: HostContext>(
    context: &mut ExtendedContext<H>,
    address: &evmc_address,
) -> (balance: evmc_uint256be)
    ensures
        exists|asked: &mut H|
            *asked == *old(context).hctx && *final(asked) == *final(context).hctx && call_ensures(
                H::get_balance,
                (asked, &address.bytes),
                balance.bytes,
            ),
{
    evmc_uint256be { bytes: context.hctx.get_balance(&address.bytes) }
}

/// The callback for the size of an account's code. The size is the client's own answer,
/// to the question about the address's bytes.
pub fn get_code_size<H: HostContext>(
    context: &mut ExtendedContext<H>,
    address: &evmc_address,
) -> (size: usize)
    ensures
        exists|asked: &mut H|
            *asked == *old(context).hctx && *final(asked) == *final(context).hctx && call_ensures(
                H::get_code_size,
                (asked, &address.bytes),
                size,
            ),
{
    context.hctx.get_code_size(&address.bytes)
}

/// The callback for the hash of an account's code. The hash is the client's own answer,
/// to the question about the address's bytes.
pub fn get_code_hash<H: HostContext>(
    context: &mut ExtendedContext<H>,
    address: &evmc_address,
) -> (hash: evmc_bytes32)
    ensures
        exists|asked: &mut H|
            *asked == *old(context).hctx && *final(asked) == *final(context).hctx && call_ensures(
                H::get_code_hash,
                (asked, &address.bytes),
                hash.bytes,
            ),
{
    evmc_bytes32 { bytes: context.hctx.get_code_hash(&address.bytes) }
}

/// The callback for copying an account's code: the client copies into the buffer from the
/// offset on, and answers how many bytes it copied. The answer and what is in the buffer
/// afterwards are the client's own, to the address's bytes, the offset and the buffer.
pub fn copy_code<H: HostContext>(
    context: &mut ExtendedContext<H>,
    address: &evmc_address,
    code_offset: usize,
    buffer: &mut [u8],
) -> (copied: usize)
    ensures
        exists|asked: &mut H, into: &mut [u8]|
            *asked == *old(context).hctx && *final(asked) == *final(context).hctx && into@ == old(
                buffer,
            )@ && final(into)@ == final(buffer)@ && call_ensures(
                H::copy_code,
                (asked, &address.bytes, &code_offset, into),
                copied,
            ),
{
    context.hctx.copy_code(&address.bytes, &code_offset, buffer)
}

/// The callback for self-destruction: tells the client the bytes of the account first and
/// of the beneficiary second.
pub fn selfdestruct<H: HostContext>(
    context: &mut ExtendedContext<H>,
    address: &evmc_address,
    beneficiary: &evmc_address,
)
    ensures
        exists|asked: &mut H|
            *asked == *old(context).hctx && *final(asked) == *final(context).hctx && call_ensures(
                H::selfdestruct,
                (asked, &address.bytes, &beneficiary.bytes),
                (),
            ),
{
    context.hctx.selfdestruct(&address.bytes, &beneficiary.bytes)
}

/// The transaction context made of the nine parts that a client answers with: the gas
/// price, origin, coinbase, block number, timestamp, gas limit, previous randao, chain id
/// and base fee.
pub open spec fn tx_context_of(
    parts: (Bytes32, Address, Address, i64, i64, i64, Bytes32, Bytes32, Bytes32),
) -> evmc_tx_context {
    evmc_tx_context {
        tx_gas_price: evmc_bytes32 { bytes: parts.0 },
        tx_origin: evmc_address { bytes: parts.1 },
        block_coinbase: evmc_address { bytes: parts.2 },
        block_number: parts.3,
        block_timestamp: parts.4,
        block_gas_limit: parts.5,
        block_prev_randao: evmc_bytes32 { bytes: parts.6 },
        chain_id: evmc_bytes32 { bytes: parts.7 },
        block_base_fee: evmc_bytes32 { bytes: parts.8 },
    }
}

/// Makes the transaction context of the nine parts that a client answers with.
pub fn tx_context_from_parts(
    parts: (Bytes32, Address, Address, i64, i64, i64, Bytes32, Bytes32, Bytes32),
) -> (tx_context: evmc_tx_context)
    ensures
        tx_context == tx_context_of(parts),
{
    let (
        gas_price,
        origin,
        coinbase,
        number,
        timestamp,
        gas_limit,
        prev_randao,
        chain_id,
        base_fee,
    ) = parts;
    evmc_tx_context {
        tx_gas_price: evmc_bytes32 { bytes: gas_price },
        tx_origin: evmc_address { bytes: origin },
        block_coinbase: evmc_address { bytes: coinbase },
        block_number: number,
        block_timestamp: timestamp,
        block_gas_limit: gas_limit,
        block_prev_randao: evmc_bytes32 { bytes: prev_randao },
        chain_id: evmc_bytes32 { bytes: chain_id },
        block_base_fee: evmc_bytes32 { bytes: base_fee },
    }
}

/// The callback for the transaction context. It is made of the nine parts that are the
/// client's own answer.
pub fn get_tx_context<H: HostContext>(context: &mut ExtendedContext<H>) -> (tx_context:
    evmc_tx_context)
    ensures
        exists|
            asked: &mut H,
            parts: (Bytes32, Address, Address, i64, i64, i64, Bytes32, Bytes32, Bytes32),
        |
            *asked == *old(context).hctx && *final(asked) == *final(context).hctx && call_ensures(
                H::get_tx_context,
                (asked,),
                parts,
            ) && tx_context == tx_context_of(parts),
{
    tx_context_from_parts(context.hctx.get_tx_context())
}

/// The callback for the hash of a block. The hash is the client's own answer, to the
/// question about the block's number.
pub fn get_block_hash<H: HostContext>(
    context: &mut ExtendedContext<H>,
    number: i64,
) -> (hash: evmc_bytes32)
    ensures
        exists|asked: &mut H|
            *asked == *old(context).hctx && *final(asked) == *final(context).hctx && call_ensures(
                H::get_block_hash,
                (asked, number),
                hash.bytes,
            ),
{
    evmc_bytes32 { bytes: context.hctx.get_block_hash(number) }
}

/// The topics of a log as plain byte arrays, in their order.
pub open spec fn plain_topics(topics: Seq<evmc_bytes32>) -> Seq<Bytes32> {
    Seq::new(topics.len(), |i: int| topics[i].bytes)
}

/// Makes plain byte arrays of the topics of a log.
pub fn topic_bytes(topics: &[evmc_bytes32]) -> (plain: Vec<Bytes32>)
    ensures
        plain@ == plain_topics(topics@),
{
    let mut plain: Vec<Bytes32> = Vec::new();
    let mut i: usize = 0;
    while i < topics.len()
        invariant
            i <= topics@.len(),
            plain@.len() == i,
            forall|j: int| 0 <= j < i ==> plain@[j] == topics@[j].bytes,
        decreases topics@.len() - i,
    {
        plain.push(topics[i].bytes);
        i += 1;
    }
    assert(plain@ =~= plain_topics(topics@));
    plain
}

/// The callback for a log: hands the client the address's bytes, the topics as plain byte
/// arrays in their order, and the data.
pub fn emit_log<H: HostContext>(
    context: &mut ExtendedContext<H>,
    address: &evmc_address,
    data: &[u8],
    topics: &[evmc_bytes32],
)
    ensures
        exists|asked: &mut H, plain: Vec<Bytes32>|
            *asked == *old(context).hctx && *final(asked) == *final(context).hctx && plain@
                == plain_topics(topics@) && call_ensures(
                H::emit_log,
                (asked, &address.bytes, &plain, data),
                (),
            ),
{
    let ts = topic_bytes(topics);
    context.hctx.emit_log(&address.bytes, &ts, data);
}

/// Whether `wire` is what a client's answer to a call crosses the boundary as: the status,
/// the gas left and the address as answered, no gas refund, the output behind a pointer
/// and a size that agree, and the release callback that gives back the output.
pub open spec fn is_call_result(
    output: Seq<u8>,
    gas_left: i64,
    create_address: Address,
    status_code: StatusCode,
    wire: WireResult,
) -> bool {
    &&& wire.status_code == status_code
    &&& wire.gas_left == gas_left
    &&& wire.gas_refund == 0
    &&& wire.output_data == if output.len() > 0 {
        Some(output)
    } else {
        None
    }
    &&& wire.output_size == output.len()
    &&& wire.release == Some(evmc_release_result_fn::Output)
    &&& wire.create_address == (evmc_address { bytes: create_address })
    &&& forall|i: int| 0 <= i < 4 ==> wire.padding[i] == 0u8
}

/// The result that a client's answer to a call crosses the boundary as. The output is
/// given to the result, which owns it until it is released.
pub fn call_result(
    output: Vec<u8>,
    gas_left: i64,
    create_address: Address,
    status_code: StatusCode,
) -> (result: evmc_result)
    ensures
        is_call_result(output@, gas_left, create_address, status_code, result@),
        result@.well_formed(),
        result@.releasable_by_value(),
{
    let len: usize = output.len();
    evmc_result {
        status_code,
        gas_left,
        gas_refund: 0,
        output_data: if len > 0 {
            Some(output)
        } else {
            None
        },
        output_size: len,
        release: Some(evmc_release_result_fn::Output),
        create_address: evmc_address { bytes: create_address },
        padding: [0u8; 4],
    }
}

/// The output of a wire result: the bytes behind the pointer, or none where the pointer
/// is null.
pub open spec fn output_of(result: WireResult) -> Seq<u8> {
    match result.output_data {
        Some(bytes) => bytes,
        None => Seq::<u8>::empty(),
    }
}

/// Whether a message with these flags is static: any flag that is set makes it so.
pub open spec fn is_static(flags: u32) -> bool {
    flags != 0
}

/// The input of a wire message: the bytes behind the pointer, or none where the pointer
/// is null.
pub open spec fn input_of(msg: WireMessage) -> Seq<u8> {
    match msg.input_data {
        Some(bytes) => bytes,
        None => Seq::<u8>::empty(),
    }
}

/// The input of a wire message as a slice.
pub fn message_input<'a>(msg: &evmc_message<'a>) -> (input: &'a [u8])
    requires
        msg@.well_formed(),
    ensures
        input@ == input_of(msg@),
        input@.len() == msg.input_size,
{
    match msg.input_data {
        Some(bytes) => bytes,
        None => &[],
    }
}

/// The callback for a nested call: asks the client with the parts of the message, a
/// message being static when any of its flags is set and a null input being an empty one,
/// and hands back the client's own answer as `call_result` makes it. Whatever the client
/// answers, what is handed back is well formed and carries the release callback of a
/// result handed over by value.
///
/// A wire message whose input pointer and size disagree is a fault of the machine: test
/// `is_well_formed` and stop on it.
pub fn call<H: HostContext>(context: &mut ExtendedContext<H>, msg: &evmc_message) -> (result:
    evmc_result)
    requires
        msg@.well_formed(),
    ensures
        result@.well_formed(),
        result@.releasable_by_value(),
        ({
            let static_call = is_static(msg.flags);
            exists|asked: &mut H, input: &Bytes, answer: (Vec<u8>, i64, Address, StatusCode)|
                *asked == *old(context).hctx && *final(asked) == *final(context).hctx && input@
                    == input_of(msg@) && #[trigger] call_ensures(
                    H::call,
                    (
                        asked,
                        msg.kind,
                        &msg.recipient.bytes,
                        &msg.sender.bytes,
                        &msg.value.bytes,
                        input,
                        msg.gas,
                        msg.depth,
                        static_call,
                        &msg.create2_salt.bytes,
                    ),
                    answer,
                ) && is_call_result(answer.0@, answer.1, answer.2, answer.3, result@)
        }),
{
    let input = message_input(msg);
    let static_call: bool = msg.flags != 0;
    let answer = context.hctx.call(
        msg.kind,
        &msg.recipient.bytes,
        &msg.sender.bytes,
        &msg.value.bytes,
        input,
        msg.gas,
        msg.depth,
        static_call,
        &msg.create2_salt.bytes,
    );
    assert(static_call == is_static(msg.flags));
    let (output, gas_left, create_address, status_code) = answer;
    call_result(output, gas_left, create_address, status_code)
}

} // verus!
