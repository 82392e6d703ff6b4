//! The pure halves of the single-bit read handlers: given the register
//! byte the host read off the bus, they extract the requested bit and
//! build the response.

use vstd::prelude::*;
use vstd::string::StringExecFns;
use crate::bits::{extract_bit, spec_bit_of};

verus! {

/// Query of a bit read from a data block.
pub struct ReadBitQuery {
    pub db_number: i32,
    pub start: i32,
    pub bit: u8,
}

/// Response of a bit read from a data block.
pub struct ReadBitResponse {
    pub db_number: i32,
    pub start: i32,
    pub bit: u8,
    pub value: Option<u8>,
    pub message: String,
}

/// Builds the response of a successful data-block bit read: the
/// requested bit of the byte the host read, and an echo of the query.
pub fn read_bit_success(query: &ReadBitQuery, byte: u8) -> (response: ReadBitResponse)
    requires
        query.bit < 8,
    ensures
        response.db_number == query.db_number,
        response.start == query.start,
        response.bit == query.bit,
        response.value == Some(spec_bit_of(byte, query.bit)),
        response.message@ == "Read successful"@,
{
    ReadBitResponse {
        db_number: query.db_number,
        start: query.start,
        bit: query.bit,
        value: Some(extract_bit(byte, query.bit)),
        message: String::from_str("Read successful"),
    }
}

/// Query of a digital-input bit read.
pub struct ReadDigitalInputQuery {
    pub byte_index: i32,
    pub bit_index: i32,
}

/// Response of a digital-input bit read.
pub struct ReadDigitalInputResponse {
    pub byte_index: i32,
    pub bit_index: i32,
    pub value: Option<u8>,
    pub message: String,
}

/// Builds the response of a successful digital-input read: the requested
/// bit of the input byte the host read, and an echo of the query.
pub fn read_digital_input_success(query: &ReadDigitalInputQuery, byte: u8) -> (response:
    ReadDigitalInputResponse)
    requires
        0 <= query.bit_index < 8,
    ensures
        response.byte_index == query.byte_index,
        response.bit_index == query.bit_index,
        response.value == Some(spec_bit_of(byte, query.bit_index as u8)),
        response.message@ == "Read successful"@,
{
    ReadDigitalInputResponse {
        byte_index: query.byte_index,
        bit_index: query.bit_index,
        value: Some(extract_bit(byte, query.bit_index as u8)),
        message: String::from_str("Read successful"),
    }
}

} // verus!
