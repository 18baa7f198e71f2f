//! The names under which a client speaks of the interface's value types: plain byte
//! arrays, and the interface's own enumerations.

use crate::types;
use vstd::prelude::*;

verus! {

pub type Capabilities = types::Capabilities;

pub type MessageKind = types::MessageKind;

pub type Revision = types::Revision;

pub type StatusCode = types::StatusCode;

pub type StorageStatus = types::StorageStatus;

pub type Address = [u8; 20];

pub type Bytes32 = [u8; 32];

pub type Bytes = [u8];

} // verus!
