//! Safety interlock: interpretation of the water-presence bit that gates
//! all actuation.

use vstd::prelude::*;

verus! {

/// Whether the digital-input register reports the medium as present: the
/// byte read off the bus is exactly 1.
pub fn water_present_from_register(byte: u8) -> (present: bool)
    ensures
        present == (byte == 1),
{
    byte == 1
}

/// Fail-safe interpretation of a possibly failed interlock read: a read
/// fault reports absence, so no actuation happens this iteration; the
/// fault is not fatal and the read is retried on the next poll tick.
pub fn interpret_interlock_read(read: Option<u8>) -> (present: bool)
    ensures
        read matches Some(byte) ==> present == (byte == 1),
        read is None ==> !present,
{
    match read {
        Some(byte) => byte == 1,
        None => false,
    }
}

} // verus!
