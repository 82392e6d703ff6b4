//! Register and bit manipulation shared by the read and write handlers:
//! extracting a bit from a register byte, read-modify-write of a single
//! output bit that preserves the rest of the byte, and reassembling
//! multi-byte register reads into one value, most significant byte
//! first.

use vstd::prelude::*;
use vstd::string::StringExecFns;

verus! {

/// The value of one bit of a byte, as the handlers extract it.
pub open spec fn spec_bit_of(byte: u8, bit: u8) -> u8 {
    (byte >> bit) & 1
}

/// Extracts one bit of a register byte.
pub fn extract_bit(byte: u8, bit: u8) -> (v: u8)
    requires
        bit < 8,
    ensures
        v == spec_bit_of(byte, bit),
        v <= 1,
{
    let v = (byte >> bit) & 1;
    proof {
        assert((byte >> bit) & 1 <= 1) by (bit_vector);
    }
    v
}

/// A register byte with one bit forced to a value.
pub open spec fn spec_with_bit(byte: u8, bit: u8, value: bool) -> u8 {
    if value {
        byte | (1u8 << bit)
    } else {
        byte & !(1u8 << bit)
    }
}

/// Forces one bit of a register byte to the requested value, preserving
/// every other bit of the byte — the read-modify-write the actuator and
/// the digital-output handler perform.
pub fn set_bit(byte: u8, bit: u8, value: bool) -> (r: u8)
    requires
        bit < 8,
    ensures
        r == spec_with_bit(byte, bit, value),
        spec_bit_of(r, bit) == (if value { 1u8 } else { 0u8 }),
        forall|j: u8| j < 8 && j != bit ==> spec_bit_of(r, j) == spec_bit_of(byte, j),
{
    let r = if value {
        byte | (1u8 << bit)
    } else {
        byte & !(1u8 << bit)
    };
    proof {
        assert(((byte | (1u8 << bit)) >> bit) & 1 == 1 && ((byte & !(1u8 << bit)) >> bit) & 1
            == 0) by (bit_vector)
            requires
                bit < 8,
        ;
        assert(forall|j: u8|
            j < 8 && j != bit ==> ((byte | (1u8 << bit)) >> j) & 1 == (byte >> j) & 1 && ((byte
                & !(1u8 << bit)) >> j) & 1 == (byte >> j) & 1) by (bit_vector)
            requires
                bit < 8,
        ;
    }
    r
}

/// The value two register bytes denote, most significant byte first.
pub open spec fn be16_value(b0: u8, b1: u8) -> int {
    b0 * 256 + b1
}

/// The value four register bytes denote, most significant byte first.
pub open spec fn be32_value(b0: u8, b1: u8, b2: u8, b3: u8) -> int {
    ((b0 * 256 + b1) * 256 + b2) * 256 + b3
}

/// Reassembles a register read of one, two or four bytes into one value,
/// most significant byte first; reads of any other width carry no single
/// value.
pub fn combine_be_value(buff: &Vec<u8>) -> (value: Option<u32>)
    ensures
        buff@.len() == 1 ==> value == Some(buff@[0] as u32),
        buff@.len() == 2 ==> value == Some(be16_value(buff@[0], buff@[1]) as u32),
        buff@.len() == 4 ==> value == Some(
            be32_value(buff@[0], buff@[1], buff@[2], buff@[3]) as u32,
        ),
        !(buff@.len() == 1 || buff@.len() == 2 || buff@.len() == 4) ==> value is None,
{
    if buff.len() == 1 {
        Some(buff[0] as u32)
    } else if buff.len() == 2 {
        Some((buff[0] as u32) * 256 + (buff[1] as u32))
    } else if buff.len() == 4 {
        Some(
            (((buff[0] as u32) * 256 + (buff[1] as u32)) * 256 + (buff[2] as u32)) * 256 + (
            buff[3] as u32),
        )
    } else {
        None
    }
}

/// The bits of a byte sequence, each byte unpacked least significant bit
/// first.
pub open spec fn lsb_bit_at(bytes: Seq<u8>, k: int) -> u8 {
    spec_bit_of(bytes[k / 8], (k % 8) as u8)
}

/// Unpacks every byte of a register read into its bits, least
/// significant bit of each byte first, bytes in read order.
pub fn bits_lsb_of_bytes(buff: &Vec<u8>) -> (bits: Vec<u8>)
    requires
        buff@.len() <= 0x1000_0000,
    ensures
        bits@.len() == 8 * buff@.len(),
        forall|k: int| 0 <= k < bits@.len() ==> bits@[k] == lsb_bit_at(buff@, k),
{
    let mut bits: Vec<u8> = Vec::new();
    let mut i: usize = 0;
    while i < buff.len()
        invariant
            i <= buff@.len(),
            buff@.len() <= 0x1000_0000,
            bits@.len() == 8 * i,
            forall|k: int| 0 <= k < bits@.len() ==> bits@[k] == lsb_bit_at(buff@, k),
        decreases buff@.len() - i,
    {
        let byte = buff[i];
        let mut j: u8 = 0;
        while j < 8
            invariant
                i < buff@.len(),
                buff@.len() <= 0x1000_0000,
                j <= 8,
                byte == buff@[i as int],
                bits@.len() == 8 * i + j,
                forall|k: int| 0 <= k < bits@.len() ==> bits@[k] == lsb_bit_at(buff@, k),
            decreases 8 - j,
        {
            let v = extract_bit(byte, j);
            proof {
                assert((8 * i + j) / 8 == i && (8 * i + j) % 8 == j) by (nonlinear_arith)
                    requires
                        0 <= j < 8 && 0 <= i,
                ;
            }
            bits.push(v);
            j = j + 1;
        }
        i = i + 1;
    }
    bits
}

/// Unpacks a register read as `bits_lsb_of_bytes` does, but walks the
/// bytes in reverse order, as the standalone variable-read handler does.
pub fn bits_lsb_of_bytes_reversed(buff: &Vec<u8>) -> (bits: Vec<u8>)
    requires
        buff@.len() <= 0x1000_0000,
    ensures
        bits@.len() == 8 * buff@.len(),
        forall|k: int| 0 <= k < bits@.len() ==> bits@[k] == lsb_bit_at(buff@.reverse(), k),
{
    let mut reversed: Vec<u8> = Vec::new();
    let mut i: usize = buff.len();
    while i > 0
        invariant
            i <= buff@.len(),
            reversed@.len() == buff@.len() - i,
            forall|k: int|
                0 <= k < reversed@.len() ==> reversed@[k] == buff@[buff@.len() - 1 - k],
        decreases i,
    {
        i = i - 1;
        reversed.push(buff[i]);
    }
    proof {
        assert(reversed@ =~= buff@.reverse());
    }
    bits_lsb_of_bytes(&reversed)
}

/// The textual form of an unpacked bit sequence.
pub open spec fn bit_char(bit: u8) -> char {
    if bit == 1 {
        '1'
    } else {
        '0'
    }
}

/// Renders an unpacked bit sequence as text, one character per bit.
pub fn bits_string(bits: &Vec<u8>) -> (text: String)
    ensures
        text@.len() == bits@.len(),
        forall|k: int| 0 <= k < bits@.len() ==> text@[k] == bit_char(bits@[k]),
{
    let mut text = String::new();
    let mut i: usize = 0;
    proof {
        reveal_strlit("1");
        reveal_strlit("0");
    }
    while i < bits.len()
        invariant
            i <= bits@.len(),
            text@.len() == i,
            forall|k: int| 0 <= k < i ==> text@[k] == bit_char(bits@[k]),
            "1"@ =~= seq!['1'],
            "0"@ =~= seq!['0'],
        decreases bits@.len() - i,
    {
        if bits[i] == 1 {
            text.append("1");
        } else {
            text.append("0");
        }
        i = i + 1;
    }
    text
}

} // verus!
