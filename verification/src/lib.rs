//! Bindings for EVMC, the connector between Ethereum clients and virtual machines: the values
//! that cross the boundary, the conversions between them and owned Rust values, the dispatch
//! of host callbacks, and the life cycle of a virtual machine, with the rules of each stated
//! as contracts.

pub mod client;
pub mod container;
pub mod declare;
pub mod entry;
pub mod ffi;
pub mod loader;
pub mod message;
pub mod registry;
pub mod result;
pub mod types;
pub mod vm;

pub use container::EvmcContainer;
pub use message::ExecutionMessage;
pub use result::ExecutionResult;
pub use types::{
    AccessStatus, Address, Bytes32, Capabilities, MessageFlags, MessageKind, Revision,
    StatusCode, StorageStatus, Uint256,
};
pub use vm::{EvmcVm, ExecutionContext, ExecutionTxContext, Host, SetOptionError};
