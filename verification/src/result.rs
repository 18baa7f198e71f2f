//! The result of an execution, as an owned value, and its conversion to and from the form in
//! which it crosses the boundary, with the release of the output buffer that the boundary
//! asks for.

use crate::ffi::{evmc_release_result_fn, evmc_result, WireResult};
use crate::types::{Address, StatusCode};
use vstd::prelude::*;
use vstd::slice::slice_to_vec;

verus! {

/// EVMC result structure.
#[derive(Debug)]
pub struct ExecutionResult {
    status_code: StatusCode,
    gas_left: i64,
    gas_refund: i64,
    output: Option<Vec<u8>>,
    create_address: Option<Address>,
}

/// What an `ExecutionResult` holds, for contracts.
pub struct ResultView {
    pub status_code: StatusCode,
    pub gas_left: i64,
    pub gas_refund: i64,
    pub output: Option<Seq<u8>>,
    pub create_address: Option<Address>,
}

impl ResultView {
    /// Whether the output, where there is one, has a length that a machine word holds, as
    /// that of every result in memory does.
    pub open spec fn representable(self) -> bool {
        self.output matches Some(bytes) ==> bytes.len() <= usize::MAX
    }

    /// Whether `wire` is this result as it crosses the boundary with the release callback
    /// `release`: the status and gas fields as they are, the output in a buffer of its own
    /// behind a pointer and a size that agree, the address of the created account or else
    /// the zero address, and zero padding.
    pub open spec fn is_wire(self, release: evmc_release_result_fn, wire: WireResult) -> bool {
        &&& wire.status_code == self.status_code
        &&& wire.gas_left == self.gas_left
        &&& wire.gas_refund == self.gas_refund
        &&& wire.output_data == match self.output {
            Some(bytes) if bytes.len() > 0 => Some(bytes),
            _ => None,
        }
        &&& wire.output_size == match self.output {
            Some(bytes) => bytes.len(),
            None => 0,
        }
        &&& wire.release == Some(release)
        &&& match self.create_address {
            Some(address) => wire.create_address == address,
            None => wire.create_address.is_zero(),
        }
        &&& forall|i: int| 0 <= i < 4 ==> wire.padding[i] == 0u8
    }

    /// The result that a well-formed wire result stands for: the status and gas fields as
    /// they are, the bytes behind the output pointer if it is not null, and the created
    /// account's address, which is taken to be there always.
    pub open spec fn from_wire(wire: WireResult) -> ResultView {
        ResultView {
            status_code: wire.status_code,
            gas_left: wire.gas_left,
            gas_refund: wire.gas_refund,
            output: wire.output_data,
            create_address: Some(wire.create_address),
        }
    }
}

impl View for ExecutionResult {
    type V = ResultView;

    closed spec fn view(&self) -> ResultView {
        ResultView {
            status_code: self.status_code,
            gas_left: self.gas_left,
            gas_refund: self.gas_refund,
            output: match self.output {
                Some(bytes) => Some(bytes@),
                None => None,
            },
            create_address: self.create_address,
        }
    }
}

impl ExecutionResult {
    /// Manually create a result. The output is copied; no account address is set.
    pub fn new(
        _status_code: StatusCode,
        _gas_left: i64,
        _gas_refund: i64,
        _output: Option<&[u8]>,
    ) -> (result: Self)
        ensures
            result@ == (ResultView {
                status_code: _status_code,
                gas_left: _gas_left,
                gas_refund: _gas_refund,
                output: match _output {
                    Some(bytes) => Some(bytes@),
                    None => None,
                },
                create_address: None,
            }),
    {
        ExecutionResult {
            status_code: _status_code,
            gas_left: _gas_left,
            gas_refund: _gas_refund,
            output: match _output {
                Some(bytes) => Some(slice_to_vec(bytes)),
                None => None,
            },
            create_address: None,
        }
    }

    /// Create failure result.
    pub fn failure() -> (result: Self)
        ensures
            result@ == (ResultView {
                status_code: StatusCode::EVMC_FAILURE,
                gas_left: 0,
                gas_refund: 0,
                output: None,
                create_address: None,
            }),
    {
        ExecutionResult::new(StatusCode::EVMC_FAILURE, 0, 0, None)
    }

    /// Create a revert result.
    pub fn revert(_gas_left: i64, _output: Option<&[u8]>) -> (result: Self)
        ensures
            result@ == (ResultView {
                status_code: StatusCode::EVMC_REVERT,
                gas_left: _gas_left,
                gas_refund: 0,
                output: match _output {
                    Some(bytes) => Some(bytes@),
                    None => None,
                },
                create_address: None,
            }),
    {
        ExecutionResult::new(StatusCode::EVMC_REVERT, _gas_left, 0, _output)
    }

    /// Create a successful result.
    pub fn success(_gas_left: i64, _gas_refund: i64, _output: Option<&[u8]>) -> (result: Self)
        ensures
            result@ == (ResultView {
                status_code: StatusCode::EVMC_SUCCESS,
                gas_left: _gas_left,
                gas_refund: _gas_refund,
                output: match _output {
                    Some(bytes) => Some(bytes@),
                    None => None,
                },
                create_address: None,
            }),
    {
        ExecutionResult::new(StatusCode::EVMC_SUCCESS, _gas_left, _gas_refund, _output)
    }

    /// Read the status code.
    pub fn status_code(&self) -> (status_code: StatusCode)
        ensures
            status_code == self@.status_code,
    {
        self.status_code
    }

    /// Read the amount of gas left.
    pub fn gas_left(&self) -> (gas_left: i64)
        ensures
            gas_left == self@.gas_left,
    {
        self.gas_left
    }

    /// Read the amount of gas refunded.
    pub fn gas_refund(&self) -> (gas_refund: i64)
        ensures
            gas_refund == self@.gas_refund,
    {
        self.gas_refund
    }

    /// Read the output returned.
    pub fn output(&self) -> (output: Option<&Vec<u8>>)
        ensures
            match output {
                Some(bytes) => self@.output == Some(bytes@),
                None => self@.output is None,
            },
    {
        self.output.as_ref()
    }

    /// Read the address of the created account. This will likely be set when
    /// returned from a CREATE/CREATE2.
    pub fn create_address(&self) -> (create_address: Option<&Address>)
        ensures
            match create_address {
                Some(address) => self@.create_address == Some(*address),
                None => self@.create_address is None,
            },
    {
        self.create_address.as_ref()
    }

    /// The result in the form in which it crosses the boundary by value. The output goes
    /// into a buffer of its own, which the wire result owns, and the release callback is
    /// the one that gives back that buffer and nothing else.
    pub fn to_wire(self) -> (wire: evmc_result)
        ensures
            self@.is_wire(evmc_release_result_fn::Output, wire@),
            wire@.well_formed(),
            wire@.releasable_by_value(),
    {
        self.into_wire_with(evmc_release_result_fn::Output)
    }

    /// The result in the form in which it crosses the boundary as a heap allocation. It is
    /// what `to_wire` gives but for the release callback, which here gives back the output
    /// buffer and the allocation.
    pub fn to_wire_boxed(self) -> (wire: Box<evmc_result>)
        ensures
            self@.is_wire(evmc_release_result_fn::OutputAndResult, (*wire)@),
            (*wire)@.well_formed(),
    {
        Box::new(self.into_wire_with(evmc_release_result_fn::OutputAndResult))
    }

    fn into_wire_with(self, release: evmc_release_result_fn) -> (wire: evmc_result)
        ensures
            self@.is_wire(release, wire@),
            wire@.well_formed(),
    {
        let (buffer, len) = allocate_output_data(self.output.as_ref());
        evmc_result {
            status_code: self.status_code,
            gas_left: self.gas_left,
            gas_refund: self.gas_refund,
            output_data: buffer,
            output_size: len,
            release: Some(release),
            create_address: match self.create_address {
                Some(address) => address,
                None => Address { bytes: [0u8; 20] },
            },
            padding: [0u8; 4],
        }
    }

    /// Takes a result that came over the boundary by value: copies the output out, then
    /// calls the result's release callback if it has one, so that nothing is left in
    /// `result` that belongs to the other side. A result without a callback keeps its
    /// buffer, which then belongs to whoever made the result.
    ///
    /// A wire result whose output pointer and size disagree is a fault of the other side:
    /// test `is_well_formed` and stop on it. One that carries the callback of a heap
    /// allocation was not handed over by value.
    pub fn from_wire(result: &mut evmc_result) -> (ret: Self)
        requires
            old(result)@.well_formed(),
            old(result)@.releasable_by_value(),
        ensures
            ret@ == ResultView::from_wire(old(result)@),
            final(result)@ == old(result)@.released(),
    {
        let ret = ExecutionResult {
            status_code: result.status_code,
            gas_left: result.gas_left,
            gas_refund: result.gas_refund,
            output: match &result.output_data {
                Some(bytes) => Some(slice_to_vec(bytes.as_slice())),
                None => None,
            },
            // Consider it is always valid.
            create_address: Some(result.create_address),
        };
        if result.release.is_some() {
            release_stack_result(result);
        }
        ret
    }

    /// Takes a result of which nothing is known yet: tests it, and takes it in as
    /// `from_wire` does if its output pointer and size agree and its release callback, if
    /// it has one, is that of a result handed over by value. Otherwise the result is left
    /// as it is and `None` says that the other side broke the interface.
    pub fn checked_from_wire(result: &mut evmc_result) -> (ret: Option<Self>)
        ensures
            match ret {
                Some(taken) => {
                    &&& old(result)@.well_formed()
                    &&& old(result)@.releasable_by_value()
                    &&& taken@ == ResultView::from_wire(old(result)@)
                    &&& final(result)@ == old(result)@.released()
                },
                None => {
                    &&& !(old(result)@.well_formed() && old(result)@.releasable_by_value())
                    &&& final(result)@ == old(result)@
                },
            },
    {
        let by_value = match result.release {
            Some(evmc_release_result_fn::OutputAndResult) => false,
            _ => true,
        };
        if result.is_well_formed() && by_value {
            Some(ExecutionResult::from_wire(result))
        } else {
            None
        }
    }
}

/// The buffer and size under which an output crosses the boundary: a fresh copy of the
/// output and its length, or a null pointer and zero where there is nothing to copy.
fn allocate_output_data(output: Option<&Vec<u8>>) -> (allocated: (Option<Vec<u8>>, usize))
    ensures
        match output {
            Some(bytes) if bytes@.len() > 0 => allocated.0 matches Some(buffer) && buffer@
                == bytes@ && allocated.1 == bytes@.len(),
            _ => allocated.0 is None && allocated.1 == 0,
        },
{
    match output {
        Some(buf) => {
            let buf_len: usize = buf.len();
            if buf_len > 0 {
                (Some(slice_to_vec(buf.as_slice())), buf_len)
            } else {
                (None, 0)
            }
        },
        None => (None, 0),
    }
}

/// The release callback of a result that was handed over by value: gives back the output
/// buffer. After it the result has no output and no callback, so that it cannot be called
/// on the same result again.
pub fn release_stack_result(result: &mut evmc_result)
    requires
        old(result).release is Some,
        old(result)@.releasable_by_value(),
    ensures
        final(result)@ == old(result)@.released(),
{
    result.output_data = None;
    result.output_size = 0;
    result.release = None;
}

/// The release callback of a result that was handed over as a heap allocation: gives back
/// the output buffer and the allocation. It takes the allocation, so that nothing of the
/// result can be touched afterwards.
pub fn release_heap_result(result: Box<evmc_result>)
    requires
        result.release == Some(evmc_release_result_fn::OutputAndResult),
{
    let _ = result;
}

/// A result that goes to the wire and comes back has the status, the gas left and the gas
/// refund that it had, and the output that it had, byte for byte, if that was not empty.
/// The release callback is called in between, and after it the wire result has neither
/// output nor callback: there is nothing that a second call could give back.
pub proof fn lemma_result_round_trip(
    result: ResultView,
    release: evmc_release_result_fn,
    wire: WireResult,
)
    requires
        result.representable(),
        result.is_wire(release, wire),
    ensures
        wire.well_formed(),
        ResultView::from_wire(wire).status_code == result.status_code,
        ResultView::from_wire(wire).gas_left == result.gas_left,
        ResultView::from_wire(wire).gas_refund == result.gas_refund,
        result.output matches Some(bytes) && bytes.len() > 0 ==> ResultView::from_wire(
            wire,
        ).output == result.output,
        result.output is None ==> ResultView::from_wire(wire).output is None,
        wire.released().output_data is None,
        wire.released().output_size == 0,
        wire.released().release is None,
        wire.released().released() == wire.released(),
{
}

} // verus!
