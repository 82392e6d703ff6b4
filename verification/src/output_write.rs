//! The pure half of the digital-output write handler: the
//! read-modify-write of one output bit, preserving every other bit of
//! the register byte, and the response.

use vstd::prelude::*;
use vstd::string::StringExecFns;
use crate::bits::{set_bit, spec_bit_of, spec_with_bit};

verus! {

/// Request to drive one digital-output bit.
pub struct SendOutputRequest {
    pub start: i32,
    pub bit_index: i32,
    pub value: bool,
}

/// Response of a digital-output write.
pub struct SendOutputResponse {
    pub start: i32,
    pub bit_index: i32,
    pub value: bool,
    pub message: String,
}

/// The byte to write back for an output request: the byte the host read,
/// with the requested bit forced to the requested value and every other
/// bit preserved.
pub fn apply_output_request(request: &SendOutputRequest, current_byte: u8) -> (new_byte: u8)
    requires
        0 <= request.bit_index < 8,
    ensures
        new_byte == spec_with_bit(current_byte, request.bit_index as u8, request.value),
        spec_bit_of(new_byte, request.bit_index as u8) == (if request.value {
            1u8
        } else {
            0u8
        }),
        forall|j: u8|
            j < 8 && j != request.bit_index ==> spec_bit_of(new_byte, j) == spec_bit_of(
                current_byte,
                j,
            ),
{
    set_bit(current_byte, request.bit_index as u8, request.value)
}

/// Builds the response of a successful digital-output write: an echo of
/// the request.
pub fn send_output_success(request: &SendOutputRequest) -> (response: SendOutputResponse)
    ensures
        response.start == request.start,
        response.bit_index == request.bit_index,
        response.value == request.value,
        response.message@ == "Output successfully set."@,
{
    SendOutputResponse {
        start: request.start,
        bit_index: request.bit_index,
        value: request.value,
        message: String::from_str("Output successfully set."),
    }
}

} // verus!
