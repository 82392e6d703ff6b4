//! The pure half of the data-block read handler: picking the requested
//! interpretation of the bytes the host read, reassembling them, and
//! unpacking their bits for the textual bit listing.

use vstd::prelude::*;
use vstd::string::StringExecFns;
use crate::bits::{be16_value, be32_value, combine_be_value};

verus! {

/// Query of a data-block read, with the requested interpretation of the
/// bytes.
pub struct ReadVariablesQuery {
    pub db_number: i32,
    pub start: i32,
    pub size: i32,
    pub data_type: String,
}

/// How a data-block read's bytes are to be interpreted.
pub enum BlockValue {
    /// The bytes reassembled as an integer, most significant byte first.
    IntegerValue(u32),
    /// The raw bit pattern of a four-byte floating-point value; turning
    /// it into a number is the host's.
    FloatBits(u32),
    /// No single value: the width or the requested interpretation admits
    /// none.
    NoValue,
}

/// Reassembles a data-block read under the requested interpretation:
/// integer reads of one, two or four bytes carry their big-endian value,
/// a floating-point read of four bytes carries its big-endian bit
/// pattern, and everything else carries no value.
pub fn read_block_value(query: &ReadVariablesQuery, buff: &Vec<u8>) -> (value: BlockValue)
    requires
        buff@.len() == query.size,
    ensures
        query.data_type@ == "integer"@ && query.size == 1 ==> value == (BlockValue::IntegerValue(
            buff@[0] as u32,
        )),
        query.data_type@ == "integer"@ && query.size == 2 ==> value == (BlockValue::IntegerValue(
            be16_value(buff@[0], buff@[1]) as u32,
        )),
        query.data_type@ == "integer"@ && query.size == 4 ==> value == (BlockValue::IntegerValue(
            be32_value(buff@[0], buff@[1], buff@[2], buff@[3]) as u32,
        )),
        query.data_type@ == "floating_point"@ && query.size == 4 ==> value == (
        BlockValue::FloatBits(be32_value(buff@[0], buff@[1], buff@[2], buff@[3]) as u32)),
        value is NoValue <==> !(query.data_type@ == "integer"@ && (query.size == 1 || query.size
            == 2 || query.size == 4)) && !(query.data_type@ == "floating_point"@ && query.size
            == 4),
{
    proof {
        reveal_strlit("integer");
        reveal_strlit("floating_point");
        assert("integer"@.len() != "floating_point"@.len());
    }
    let integer_label = String::from_str("integer");
    let float_label = String::from_str("floating_point");
    if query.data_type == integer_label {
        match combine_be_value(buff) {
            Some(v) => BlockValue::IntegerValue(v),
            None => BlockValue::NoValue,
        }
    } else if query.data_type == float_label && buff.len() == 4 {
        match combine_be_value(buff) {
            Some(v) => BlockValue::FloatBits(v),
            None => BlockValue::NoValue,
        }
    } else {
        BlockValue::NoValue
    }
}

} // verus!
