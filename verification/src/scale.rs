//! Temperature scaler: linear conversion from raw analog-input units to
//! temperature in hundredths of a degree Celsius.
//!
//! The sensor's calibrated range maps raw 0 to -40.00 degrees and raw
//! 27648 to 100.00 degrees; values outside the calibrated raw range
//! extrapolate linearly along the same line.

use vstd::prelude::*;

verus! {

/// Lowest raw value of the calibrated range.
pub const RAW_MIN: u16 = 0;

/// Highest raw value of the calibrated range.
pub const RAW_MAX: u16 = 27648;

/// Temperature at `RAW_MIN`, in hundredths of a degree Celsius.
pub const TEMP_AT_RAW_MIN_CENTI: i32 = -4000;

/// Temperature at `RAW_MAX`, in hundredths of a degree Celsius.
pub const TEMP_AT_RAW_MAX_CENTI: i32 = 10000;

/// The temperature, in hundredths of a degree, that a raw sensor reading
/// denotes: a line through (0, -4000) and (27648, 10000), with the
/// quotient truncated.
pub open spec fn raw_to_centi_temp(raw: int) -> int {
    raw * 14000 / 27648 - 4000
}

/// Converts a raw analog-input reading to a temperature in hundredths of
/// a degree Celsius.
pub fn scale_to_temperature(raw: u16) -> (temp: i32)
    ensures
        temp == raw_to_centi_temp(raw as int),
        TEMP_AT_RAW_MIN_CENTI <= temp < 30000,
{
    let scaled: u64 = (raw as u64) * 14000 / 27648;
    proof {
        assert(raw * 14000 / 27648 < 34000) by (nonlinear_arith)
            requires
                raw <= 65535,
        ;
    }
    (scaled as i32) - 4000
}

/// Reassembles the raw sensor value from the two bytes read off the bus,
/// most significant byte first.
pub fn raw_from_be_bytes(high: u8, low: u8) -> (raw: u16)
    ensures
        raw == high * 256 + low,
{
    let raw = ((high as u16) << 8) | (low as u16);
    proof {
        assert(((high as u16) << 8) | (low as u16) == high * 256 + low) by (bit_vector);
    }
    raw
}

} // verus!
