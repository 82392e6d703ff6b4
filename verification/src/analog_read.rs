//! The pure half of the analog-input read handler: reassembling the
//! bytes the host read into one value and building the response.

use vstd::prelude::*;
use vstd::string::StringExecFns;
use crate::bits::{be16_value, be32_value, combine_be_value};

verus! {

/// Query of an analog-input read.
pub struct ReadAnalogInputQuery {
    pub byte_index: i32,
    pub size: i32,
}

/// Response of an analog-input read.
pub struct ReadAnalogInputResponse {
    pub byte_index: i32,
    pub size: i32,
    pub value: Option<u32>,
    pub message: String,
}

/// Builds the response of a successful analog-input read: reads of one,
/// two or four bytes are reassembled most significant byte first; any
/// other width reports no single value.
pub fn read_analog_input_success(query: &ReadAnalogInputQuery, buff: &Vec<u8>) -> (response:
    ReadAnalogInputResponse)
    requires
        buff@.len() == query.size,
    ensures
        response.byte_index == query.byte_index,
        response.size == query.size,
        query.size == 1 ==> response.value == Some(buff@[0] as u32),
        query.size == 2 ==> response.value == Some(be16_value(buff@[0], buff@[1]) as u32),
        query.size == 4 ==> response.value == Some(
            be32_value(buff@[0], buff@[1], buff@[2], buff@[3]) as u32,
        ),
        !(query.size == 1 || query.size == 2 || query.size == 4) ==> response.value is None,
        response.message@ == "Read successful"@,
{
    ReadAnalogInputResponse {
        byte_index: query.byte_index,
        size: query.size,
        value: combine_be_value(buff),
        message: String::from_str("Read successful"),
    }
}

} // verus!
