//! The pure half of the standalone variable-read handler, which connects
//! to an explicitly addressed controller: reassembling the bytes the
//! host read, unpacking their bits walking the bytes in reverse order,
//! and building the response.

use vstd::prelude::*;
use vstd::string::StringExecFns;
use crate::bits::{be16_value, be32_value, bits_lsb_of_bytes_reversed, combine_be_value,
    lsb_bit_at};

verus! {

/// Query of a standalone variable read from an explicit target.
pub struct ReadVariablesQuery {
    pub address: String,
    pub rack: i32,
    pub slot: i32,
    pub db_number: i32,
    pub start: i32,
    pub size: i32,
}

/// Response of a standalone variable read.
pub struct ReadVariablesResponse {
    pub address: String,
    pub rack: i32,
    pub slot: i32,
    pub db_number: i32,
    pub start: i32,
    pub size: i32,
    pub value: Option<u32>,
    pub bits: Vec<u8>,
    pub message: String,
}

/// Builds the response of a successful standalone variable read: reads
/// of one, two or four bytes are reassembled most significant byte
/// first, and every bit of the read is listed, bytes walked in reverse
/// order and each byte unpacked least significant bit first.
pub fn read_variables_success(query: &ReadVariablesQuery, buff: &Vec<u8>) -> (response:
    ReadVariablesResponse)
    requires
        buff@.len() == query.size,
        buff@.len() <= 0x1000_0000,
    ensures
        response.address@ == query.address@,
        response.rack == query.rack,
        response.slot == query.slot,
        response.db_number == query.db_number,
        response.start == query.start,
        response.size == query.size,
        query.size == 1 ==> response.value == Some(buff@[0] as u32),
        query.size == 2 ==> response.value == Some(be16_value(buff@[0], buff@[1]) as u32),
        query.size == 4 ==> response.value == Some(
            be32_value(buff@[0], buff@[1], buff@[2], buff@[3]) as u32,
        ),
        !(query.size == 1 || query.size == 2 || query.size == 4) ==> response.value is None,
        response.bits@.len() == 8 * buff@.len(),
        forall|k: int|
            0 <= k < response.bits@.len() ==> response.bits@[k] == lsb_bit_at(
                buff@.reverse(),
                k,
            ),
        response.message@ == "Read successful"@,
{
    ReadVariablesResponse {
        address: query.address.clone(),
        rack: query.rack,
        slot: query.slot,
        db_number: query.db_number,
        start: query.start,
        size: query.size,
        value: combine_be_value(buff),
        bits: bits_lsb_of_bytes_reversed(buff),
        message: String::from_str("Read successful"),
    }
}

} // verus!
