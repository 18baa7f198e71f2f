//! What a virtual machine is given to work with: the trait that it implements, and the
//! context through which it reaches its host while it executes a message.

use crate::ffi::{evmc_host_interface, evmc_message, evmc_result, evmc_tx_context};
use crate::message::ExecutionMessage;
use crate::result::{ExecutionResult, ResultView};
use crate::types::{AccessStatus, Address, Bytes32, Revision, StorageStatus, Uint256};
use vstd::prelude::*;

verus! {

/// Trait EVMC VMs have to implement.
pub trait EvmcVm: Sized {
    /// This is called once at initialisation time.
    fn init() -> Self;

    /// Called for each supplied option. By default every option is taken and changes nothing.
    fn set_option(&mut self, _key: &str, _value: &str) -> (taken: Result<(), SetOptionError>)
        default_ensures
            taken == Ok::<(), SetOptionError>(()),
            *final(self) == *old(self),
    {
        Ok(())
    }

    /// This is called for every incoming message.
    fn execute<'a, H: Host>(
        &self,
        revision: Revision,
        code: &'a [u8],
        message: &'a ExecutionMessage,
        context: Option<&'a mut ExecutionContext<'a, H>>,
    ) -> ExecutionResult;
}

/// Error codes for set_option.
#[derive(Debug)]
pub enum SetOptionError {
    InvalidKey,
    InvalidValue,
}

/// EVMC transaction context structure.
pub type ExecutionTxContext = evmc_tx_context;

/// The other side of the boundary as a virtual machine reaches it: one method for each
/// callback of `evmc_host_interface`, called with the host's context. What a host answers
/// is its own affair, so no method promises anything.
pub trait Host {
    fn account_exists(&mut self, address: &Address) -> bool;

    fn get_storage(&mut self, address: &Address, key: &Bytes32) -> Bytes32;

    fn set_storage(&mut self, address: &Address, key: &Bytes32, value: &Bytes32) -> StorageStatus;

    fn get_balance(&mut self, address: &Address) -> Uint256;

    fn get_code_size(&mut self, address: &Address) -> usize;

    fn get_code_hash(&mut self, address: &Address) -> Bytes32;

    fn copy_code(&mut self, address: &Address, code_offset: usize, buffer: &mut [u8]) -> usize;

    fn selfdestruct(&mut self, address: &Address, beneficiary: &Address) -> bool;

    /// The message is well formed: its input pointer and size agree.
    fn call(&mut self, message: &evmc_message) -> evmc_result
        requires
            message@.well_formed(),
    ;

    fn get_tx_context(&mut self) -> evmc_tx_context;

    fn get_block_hash(&mut self, number: i64) -> Bytes32;

    fn emit_log(&mut self, address: &Address, data: &[u8], topics: &[Bytes32]);

    fn access_account(&mut self, address: &Address) -> AccessStatus;

    fn access_storage(&mut self, address: &Address, key: &Bytes32) -> AccessStatus;
}

/// EVMC context structure. Exposes the EVMC host functions, message data, and transaction context
/// to the executing VM.
pub struct ExecutionContext<'a, H: Host> {
    host: &'a evmc_host_interface,
    context: &'a mut H,
    tx_context: ExecutionTxContext,
}

impl<'a, H: Host> ExecutionContext<'a, H> {
    /// The table of the callbacks that the host has filled.
    pub closed spec fn host(&self) -> evmc_host_interface {
        *self.host
    }

    /// The host behind the table, as it is now.
    pub closed spec fn host_context(&self) -> H {
        *self.context
    }

    /// The transaction context that was fetched when the context was made.
    pub closed spec fn tx_context(&self) -> ExecutionTxContext {
        self.tx_context
    }

    /// Binds the host's callback table and context for one execution, and fetches the
    /// transaction context, once: it is the host's own answer.
    ///
    /// A host whose table has no callback for the transaction context cannot be bound.
    pub fn new(host: &'a evmc_host_interface, _context: &'a mut H) -> (context: Self)
        requires
            host.get_tx_context,
        ensures
            context.host() == *host,
            exists|asked: &mut H|
                *asked == *old(_context) && *final(asked) == context.host_context()
                    && call_ensures(H::get_tx_context, (asked,), context.tx_context()),
    {
        let _tx_context = _context.get_tx_context();
        ExecutionContext { host, context: _context, tx_context: _tx_context }
    }

    /// The callback table, to test a slot before a call that needs it.
    pub fn host_interface(&self) -> (host: &evmc_host_interface)
        ensures
            *host == self.host(),
    {
        self.host
    }

    /// Retrieve the transaction context.
    pub fn get_tx_context(&self) -> (tx_context: &ExecutionTxContext)
        ensures
            *tx_context == self.tx_context(),
    {
        &self.tx_context
    }

    /// Check if an account exists. The answer is the host's own.
    pub fn account_exists(&mut self, address: &Address) -> (exists: bool)
        requires
            old(self).host().account_exists,
        ensures
            final(self).host() == old(self).host(),
            final(self).tx_context() == old(self).tx_context(),
            exists|asked: &mut H|
                *asked == old(self).host_context() && *final(asked) == final(self).host_context()
                    && call_ensures(H::account_exists, (asked, address), exists),
    {
        self.context.account_exists(address)
    }

    /// Read from a storage key. The value is the host's own answer.
    pub fn get_storage(&mut self, address: &Address, key: &Bytes32) -> (value: Bytes32)
        requires
            old(self).host().get_storage,
        ensures
            final(self).host() == old(self).host(),
            final(self).tx_context() == old(self).tx_context(),
            exists|asked: &mut H|
                *asked == old(self).host_context() && *final(asked) == final(self).host_context()
                    && call_ensures(H::get_storage, (asked, address, key), value),
    {
        self.context.get_storage(address, key)
    }

    /// Set value of a storage key. The status is the host's own answer.
    pub fn set_storage(&mut self, address: &Address, key: &Bytes32, value: &Bytes32) -> (status:
        StorageStatus)
        requires
            old(self).host().set_storage,
        ensures
            final(self).host() == old(self).host(),
            final(self).tx_context() == old(self).tx_context(),
            exists|asked: &mut H|
                *asked == old(self).host_context() && *final(asked) == final(self).host_context()
                    && call_ensures(H::set_storage, (asked, address, key, value), status),
    {
        self.context.set_storage(address, key, value)
    }

    /// Get balance of an account. The balance is the host's own answer.
    pub fn get_balance(&mut self, address: &Address) -> (balance: Uint256)
        requires
            old(self).host().get_balance,
        ensures
            final(self).host() == old(self).host(),
            final(self).tx_context() == old(self).tx_context(),
            exists|asked: &mut H|
                *asked == old(self).host_context() && *final(asked) == final(self).host_context()
                    && call_ensures(H::get_balance, (asked, address), balance),
    {
        self.context.get_balance(address)
    }

    /// Get code size of an account. The size is the host's own answer.
    pub fn get_code_size(&mut self, address: &Address) -> (size: usize)
        requires
            old(self).host().get_code_size,
        ensures
            final(self).host() == old(self).host(),
            final(self).tx_context() == old(self).tx_context(),
            exists|asked: &mut H|
                *asked == old(self).host_context() && *final(asked) == final(self).host_context()
                    && call_ensures(H::get_code_size, (asked, address), size),
    {
        self.context.get_code_size(address)
    }

    /// Get code hash of an account. The hash is the host's own answer.
    pub fn get_code_hash(&mut self, address: &Address) -> (hash: Bytes32)
        requires
            old(self).host().get_code_hash,
        ensures
            final(self).host() == old(self).host(),
            final(self).tx_context() == old(self).tx_context(),
            exists|asked: &mut H|
                *asked == old(self).host_context() && *final(asked) == final(self).host_context()
                    && call_ensures(H::get_code_hash, (asked, address), hash),
    {
        self.context.get_code_hash(address)
    }

    /// Copy code of an account. How much was copied and what is in the buffer afterwards
    /// are the host's own answer.
    pub fn copy_code(&mut self, address: &Address, code_offset: usize, buffer: &mut [u8]) -> (copied:
        usize)
        requires
            old(self).host().copy_code,
        ensures
            final(self).host() == old(self).host(),
            final(self).tx_context() == old(self).tx_context(),
            exists|asked: &mut H, into: &mut [u8]|
                *asked == old(self).host_context() && *final(asked) == final(self).host_context()
                    && into@ == old(buffer)@ && final(into)@ == final(buffer)@ && call_ensures(
                    H::copy_code,
                    (asked, address, code_offset, into),
                    copied,
                ),
    {
        self.context.copy_code(address, code_offset, buffer)
    }

    /// Self-destruct the current account. The answer is the host's own.
    pub fn selfdestruct(&mut self, address: &Address, beneficiary: &Address) -> (registered: bool)
        requires
            old(self).host().selfdestruct,
        ensures
            final(self).host() == old(self).host(),
            final(self).tx_context() == old(self).tx_context(),
            exists|asked: &mut H|
                *asked == old(self).host_context() && *final(asked) == final(self).host_context()
                    && call_ensures(H::selfdestruct, (asked, address, beneficiary), registered),
    {
        self.context.selfdestruct(address, beneficiary)
    }

    /// Call to another account. The message is lent to the host in its wire form for the
    /// time of the call. What the host hands back is taken in as `from_wire` takes it, and
    /// released.
    ///
    /// This is for a host that is known to hand back well-formed results with the release
    /// callback, if any, of a result handed over by value. Of any other host, use
    /// `checked_call`.
    pub fn call(&mut self, message: &ExecutionMessage) -> (result: ExecutionResult)
        requires
            old(self).host().call,
            forall|asked: &mut H, wire: evmc_message, answer: evmc_result|
                wire@.well_formed() && #[trigger] call_ensures(H::call, (asked, &wire), answer)
                    ==> answer@.well_formed() && answer@.releasable_by_value(),
        ensures
            final(self).host() == old(self).host(),
            final(self).tx_context() == old(self).tx_context(),
            exists|asked: &mut H, wire: evmc_message, answer: evmc_result|
                *asked == old(self).host_context() && *final(asked) == final(self).host_context()
                    && wire@ == message@.to_wire() && #[trigger] call_ensures(
                    H::call,
                    (asked, &wire),
                    answer,
                ) && result@ == ResultView::from_wire(answer@),
    {
        // There is no need to make any kind of copies here, because the caller
        // won't go out of scope and ensures these pointers remain valid.
        let wire = message.to_wire();
        let mut answer = self.context.call(&wire);
        ExecutionResult::from_wire(&mut answer)
    }

    /// Call to another account, whatever the host: as `call`, but what the host hands back
    /// is tested first. `None` means that the host handed back a result that breaks the
    /// interface, one whose output pointer and size disagree or whose release callback is
    /// not that of a result handed over by value: the caller must stop.
    pub fn checked_call(&mut self, message: &ExecutionMessage) -> (result: Option<
        ExecutionResult,
    >)
        requires
            old(self).host().call,
        ensures
            final(self).host() == old(self).host(),
            final(self).tx_context() == old(self).tx_context(),
            exists|asked: &mut H, wire: evmc_message, answer: evmc_result|
                *asked == old(self).host_context() && *final(asked) == final(self).host_context()
                    && wire@ == message@.to_wire() && #[trigger] call_ensures(
                    H::call,
                    (asked, &wire),
                    answer,
                ) && match result {
                    Some(taken) => answer@.well_formed() && answer@.releasable_by_value()
                        && taken@ == ResultView::from_wire(answer@),
                    None => !(answer@.well_formed() && answer@.releasable_by_value()),
                },
    {
        let wire = message.to_wire();
        let mut answer = self.context.call(&wire);
        ExecutionResult::checked_from_wire(&mut answer)
    }

    /// Get block hash of an account. The hash is the host's own answer.
    pub fn get_block_hash(&mut self, num: i64) -> (hash: Bytes32)
        requires
            old(self).host().get_block_hash,
        ensures
            final(self).host() == old(self).host(),
            final(self).tx_context() == old(self).tx_context(),
            exists|asked: &mut H|
                *asked == old(self).host_context() && *final(asked) == final(self).host_context()
                    && call_ensures(H::get_block_hash, (asked, num), hash),
    {
        self.context.get_block_hash(num)
    }

    /// Emit a log. The host is handed the address, the data and the topics as they are.
    pub fn emit_log(&mut self, address: &Address, data: &[u8], topics: &[Bytes32])
        requires
            old(self).host().emit_log,
        ensures
            final(self).host() == old(self).host(),
            final(self).tx_context() == old(self).tx_context(),
            exists|asked: &mut H|
                *asked == old(self).host_context() && *final(asked) == final(self).host_context()
                    && call_ensures(H::emit_log, (asked, address, data, topics), ()),
    {
        self.context.emit_log(address, data, topics)
    }

    /// Access an account. The status is the host's own answer.
    pub fn access_account(&mut self, address: &Address) -> (status: AccessStatus)
        requires
            old(self).host().access_account,
        ensures
            final(self).host() == old(self).host(),
            final(self).tx_context() == old(self).tx_context(),
            exists|asked: &mut H|
                *asked == old(self).host_context() && *final(asked) == final(self).host_context()
                    && call_ensures(H::access_account, (asked, address), status),
    {
        self.context.access_account(address)
    }

    /// Access a storage key. The status is the host's own answer.
    pub fn access_storage(&mut self, address: &Address, key: &Bytes32) -> (status: AccessStatus)
        requires
            old(self).host().access_storage,
        ensures
            final(self).host() == old(self).host(),
            final(self).tx_context() == old(self).tx_context(),
            exists|asked: &mut H|
                *asked == old(self).host_context() && *final(asked) == final(self).host_context()
                    && call_ensures(H::access_storage, (asked, address, key), status),
    {
        self.context.access_storage(address, key)
    }
}

} // verus!
