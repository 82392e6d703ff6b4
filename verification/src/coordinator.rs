//! Dual-rate periodic coordinator: the computations of the fast
//! telemetry tick and the slow actuation tick, and the status record the
//! two ticks share through the field bus.
//!
//! The host multiplexes the two ticks against one shared bus connection,
//! serialized because the connection is a single logical channel. The
//! fast tick reads the sensor and status bits, runs the regulator,
//! clamps, and persists the full status record back to the bus; it never
//! touches the actuator bit. The slow tick reads the last persisted
//! power level, schedules the ON/OFF window against the slow period, and
//! drives the heater bit ON then OFF for those durations, blocking for
//! up to the full period while doing so. Because the slow tick's own
//! actuation sleeps occupy its execution, the next slow-tick deadline
//! cannot be serviced until the current actuation sequence completes:
//! the effective slow period is the period plus that overhead, not the
//! period exactly.

use vstd::prelude::*;
use crate::duty_cycle::{clamp_power, clamp_power_centi, compute_window, DutyCycleWindow,
    PERIOD_MS_MAX, POWER_FULL_CENTI};
use crate::pid_regulator::{spec_control_output, PidRegulator, TEMP_CENTI_MAX};
use crate::scale::{raw_to_centi_temp, scale_to_temperature};

verus! {

/// The status record the ticks exchange over the bus: the raw sensor
/// value, the power level and the two temperatures in fixed point, and
/// three status bits.
pub struct PlcData {
    /// Raw analog-input reading of the temperature sensor.
    pub temp_ai: u16,
    /// Power level, in hundredths of a percent.
    pub power_centi: i32,
    /// Target temperature, in hundredths of a degree Celsius.
    pub target_centi: i32,
    /// Last scaled measurement, in hundredths of a degree Celsius.
    pub current_centi: i32,
    /// The safety interlock's water-presence bit.
    pub water_present: bool,
    /// Whether the heater is logically enabled.
    pub heater_enabled: bool,
    /// Whether the heater bit is currently driven ON.
    pub heater_on: bool,
}

/// The byte that carries the three status bits: water presence in bit 0,
/// logical enablement in bit 1, the heater's ON state in bit 2.
pub open spec fn status_byte_of(water: bool, enabled: bool, on: bool) -> u8 {
    ((if water {
        1int
    } else {
        0int
    }) + (if enabled {
        2int
    } else {
        0int
    }) + (if on {
        4int
    } else {
        0int
    })) as u8
}

/// Packs the three status bits into their byte.
pub fn encode_status_byte(water: bool, enabled: bool, on: bool) -> (byte: u8)
    ensures
        byte == status_byte_of(water, enabled, on),
        byte <= 7,
{
    (if water {
        1u8
    } else {
        0u8
    }) + (if enabled {
        2u8
    } else {
        0u8
    }) + (if on {
        4u8
    } else {
        0u8
    })
}

/// Recovers the three status bits from their byte.
pub fn decode_status_byte(byte: u8) -> (bits: (bool, bool, bool))
    ensures
        bits.0 == ((byte >> 0u8) & 1 == 1),
        bits.1 == ((byte >> 1u8) & 1 == 1),
        bits.2 == ((byte >> 2u8) & 1 == 1),
{
    ((byte >> 0u8) & 1 == 1, (byte >> 1u8) & 1 == 1, (byte >> 2u8) & 1 == 1)
}

/// The three status bits survive the trip through their byte unchanged.
pub proof fn lemma_status_byte_round_trip(water: bool, enabled: bool, on: bool)
    ensures
        (status_byte_of(water, enabled, on) >> 0u8) & 1 == (if water { 1u8 } else { 0u8 }),
        (status_byte_of(water, enabled, on) >> 1u8) & 1 == (if enabled { 1u8 } else { 0u8 }),
        (status_byte_of(water, enabled, on) >> 2u8) & 1 == (if on { 1u8 } else { 0u8 }),
{
    let w: u8 = if water { 1u8 } else { 0u8 };
    let e: u8 = if enabled { 1u8 } else { 0u8 };
    let o: u8 = if on { 1u8 } else { 0u8 };
    assert(((w + 2 * e + 4 * o) as u8 >> 0u8) & 1 == w && ((w + 2 * e + 4 * o) as u8 >> 1u8) & 1
        == e && ((w + 2 * e + 4 * o) as u8 >> 2u8) & 1 == o) by (bit_vector)
        requires
            w <= 1 && e <= 1 && o <= 1,
    ;
}

/// The big-endian bytes of a 16-bit value.
pub open spec fn be16_bytes(x: u16) -> Seq<u8> {
    seq![(x / 256) as u8, (x % 256) as u8]
}

/// The big-endian bytes of a 32-bit value.
pub open spec fn be32_bytes(x: u32) -> Seq<u8> {
    seq![
        (x / 0x100_0000) as u8,
        ((x / 0x1_0000) % 256) as u8,
        ((x / 256) % 256) as u8,
        (x % 256) as u8,
    ]
}

/// Big-endian encoding of a 32-bit value loses nothing: the four bytes
/// reassemble to the value.
proof fn lemma_be32_lossless(x: u32)
    ensures
        ((be32_bytes(x)[0] * 256 + be32_bytes(x)[1]) * 256 + be32_bytes(x)[2]) * 256
            + be32_bytes(x)[3] == x,
{
    assert((((x / 0x100_0000) as u8 * 256 + ((x / 0x1_0000) % 256) as u8) * 256 + ((x / 256)
        % 256) as u8) * 256 + (x % 256) as u8 == x) by (bit_vector);
}

/// The wire form of the status record loses nothing: every field of the
/// record can be read back off its fifteen bytes — the numeric fields by
/// big-endian reassembly (the signed ones through their two's
/// complement), the three status bits from the last byte.
pub proof fn lemma_record_bytes_lossless(data: PlcData)
    ensures
        ({
            let bytes = record_bytes(data);
            &&& bytes.len() == 15
            &&& bytes[0] * 256 + bytes[1] == data.temp_ai
            &&& (((bytes[2] * 256 + bytes[3]) * 256 + bytes[4]) * 256 + bytes[5]) as u32 as i32
                == data.power_centi
            &&& (((bytes[6] * 256 + bytes[7]) * 256 + bytes[8]) * 256 + bytes[9]) as u32 as i32
                == data.target_centi
            &&& (((bytes[10] * 256 + bytes[11]) * 256 + bytes[12]) * 256 + bytes[13]) as u32
                as i32 == data.current_centi
            &&& ((bytes[14] >> 0u8) & 1 == 1) == data.water_present
            &&& ((bytes[14] >> 1u8) & 1 == 1) == data.heater_enabled
            &&& ((bytes[14] >> 2u8) & 1 == 1) == data.heater_on
        }),
{
    let t = data.temp_ai;
    assert((t / 256) as u8 * 256 + (t % 256) as u8 == t) by (bit_vector);
    lemma_be32_lossless(data.power_centi as u32);
    lemma_be32_lossless(data.target_centi as u32);
    lemma_be32_lossless(data.current_centi as u32);
    let p = data.power_centi;
    let g = data.target_centi;
    let c = data.current_centi;
    assert(p as u32 as i32 == p && g as u32 as i32 == g && c as u32 as i32 == c) by (bit_vector);
    lemma_status_byte_round_trip(data.water_present, data.heater_enabled, data.heater_on);
}

/// The wire form of the status record: the raw sensor value, the power
/// level and the two temperatures big-endian (the signed values in
/// two's complement), then the status byte.
pub open spec fn record_bytes(data: PlcData) -> Seq<u8> {
    be16_bytes(data.temp_ai) + be32_bytes(data.power_centi as u32) + be32_bytes(
        data.target_centi as u32,
    ) + be32_bytes(data.current_centi as u32) + seq![
        status_byte_of(data.water_present, data.heater_enabled, data.heater_on),
    ]
}

/// Appends the big-endian bytes of a 32-bit value.
fn push_be32(bytes: &mut Vec<u8>, x: u32)
    ensures
        final(bytes)@ =~= old(bytes)@ + be32_bytes(x),
{
    let b0 = (x >> 24) as u8;
    let b1 = ((x >> 16) & 0xff) as u8;
    let b2 = ((x >> 8) & 0xff) as u8;
    let b3 = (x & 0xff) as u8;
    proof {
        assert((x >> 24) as u8 == (x / 0x100_0000) as u8 && ((x >> 16) & 0xff) as u8 == ((x
            / 0x1_0000) % 256) as u8 && ((x >> 8) & 0xff) as u8 == ((x / 256) % 256) as u8 && (x
            & 0xff) as u8 == (x % 256) as u8) by (bit_vector);
    }
    bytes.push(b0);
    bytes.push(b1);
    bytes.push(b2);
    bytes.push(b3);
}

impl PlcData {
    /// Serializes the record into its wire form.
    pub fn to_bytes(&self) -> (bytes: Vec<u8>)
        ensures
            bytes@ =~= record_bytes(*self),
            bytes@.len() == 15,
    {
        let mut bytes: Vec<u8> = Vec::new();
        let hi = (self.temp_ai >> 8) as u8;
        let lo = (self.temp_ai & 0xff) as u8;
        proof {
            let t = self.temp_ai;
            assert((t >> 8) as u8 == (t / 256) as u8 && (t & 0xff) as u8 == (t % 256) as u8)
                by (bit_vector);
        }
        bytes.push(hi);
        bytes.push(lo);
        push_be32(&mut bytes, #[verifier::truncate] (self.power_centi as u32));
        push_be32(&mut bytes, #[verifier::truncate] (self.target_centi as u32));
        push_be32(&mut bytes, #[verifier::truncate] (self.current_centi as u32));
        bytes.push(encode_status_byte(self.water_present, self.heater_enabled, self.heater_on));
        bytes
    }
}

/// Reassembles a big-endian 16-bit register read.
pub fn be16_from_bytes(bytes: [u8; 2]) -> (x: u16)
    ensures
        x == bytes@[0] * 256 + bytes@[1],
        be16_bytes(x) =~= bytes@,
{
    let x = ((bytes[0] as u16) << 8) | (bytes[1] as u16);
    proof {
        let b0 = bytes[0];
        let b1 = bytes[1];
        assert(((b0 as u16) << 8 | (b1 as u16)) == b0 * 256 + b1 && ((b0 as u16) << 8 | (
        b1 as u16)) / 256 == b0 && ((b0 as u16) << 8 | (b1 as u16)) % 256 == b1) by (bit_vector);
    }
    x
}

/// Reassembles a big-endian 32-bit register read.
pub fn be32_from_bytes(bytes: [u8; 4]) -> (x: u32)
    ensures
        x == ((bytes@[0] * 256 + bytes@[1]) * 256 + bytes@[2]) * 256 + bytes@[3],
        be32_bytes(x) =~= bytes@,
{
    let x = ((bytes[0] as u32) << 24) | ((bytes[1] as u32) << 16) | ((bytes[2] as u32) << 8) | (
    bytes[3] as u32);
    proof {
        let b0 = bytes[0];
        let b1 = bytes[1];
        let b2 = bytes[2];
        let b3 = bytes[3];
        let v = (b0 as u32) << 24 | (b1 as u32) << 16 | (b2 as u32) << 8 | (b3 as u32);
        assert(v == ((b0 * 256 + b1) * 256 + b2) * 256 + b3) by (bit_vector)
            requires
                v == (b0 as u32) << 24 | (b1 as u32) << 16 | (b2 as u32) << 8 | (b3 as u32),
        ;
        assert(v / 0x100_0000 == b0 && (v / 0x1_0000) % 256 == b1 && (v / 256) % 256 == b2 && v
            % 256 == b3) by (bit_vector)
            requires
                v == (b0 as u32) << 24 | (b1 as u32) << 16 | (b2 as u32) << 8 | (b3 as u32),
        ;
    }
    x
}

/// Rebuilds the status record from the fast tick's register reads,
/// falling back to zero for a failed numeric read and to `false` for a
/// failed status read — stale or default values are retained rather than
/// failing the tick.
pub fn decode_record(
    temp_read: Option<[u8; 2]>,
    power_read: Option<[u8; 4]>,
    target_read: Option<[u8; 4]>,
    current_read: Option<[u8; 4]>,
    status_read: Option<u8>,
) -> (data: PlcData)
    ensures
        data.temp_ai == (match temp_read {
            Some(b) => b@[0] * 256 + b@[1],
            None => 0int,
        }),
        data.power_centi == (match power_read {
            Some(b) => (((b@[0] * 256 + b@[1]) * 256 + b@[2]) * 256 + b@[3]) as u32 as i32,
            None => 0int as i32,
        }),
        data.target_centi == (match target_read {
            Some(b) => (((b@[0] * 256 + b@[1]) * 256 + b@[2]) * 256 + b@[3]) as u32 as i32,
            None => 0int as i32,
        }),
        data.current_centi == (match current_read {
            Some(b) => (((b@[0] * 256 + b@[1]) * 256 + b@[2]) * 256 + b@[3]) as u32 as i32,
            None => 0int as i32,
        }),
        data.water_present == (match status_read {
            Some(byte) => (byte >> 0u8) & 1 == 1,
            None => false,
        }),
        data.heater_enabled == (match status_read {
            Some(byte) => (byte >> 1u8) & 1 == 1,
            None => false,
        }),
        data.heater_on == (match status_read {
            Some(byte) => (byte >> 2u8) & 1 == 1,
            None => false,
        }),
{
    let temp_ai = match temp_read {
        Some(b) => be16_from_bytes(b),
        None => 0,
    };
    let power_centi = match power_read {
        Some(b) => be32_from_bytes(b) as i32,
        None => 0,
    };
    let target_centi = match target_read {
        Some(b) => be32_from_bytes(b) as i32,
        None => 0,
    };
    let current_centi = match current_read {
        Some(b) => be32_from_bytes(b) as i32,
        None => 0,
    };
    let (water_present, heater_enabled, heater_on) = match status_read {
        Some(byte) => decode_status_byte(byte),
        None => (false, false, false),
    };
    PlcData {
        temp_ai,
        power_centi,
        target_centi,
        current_centi,
        water_present,
        heater_enabled,
        heater_on,
    }
}

/// One fast telemetry tick: scales the sensor value carried by the
/// record, advances the regulator with it, clamps the control output
/// into the power range (a negative output disables the heater
/// logically), and returns the record to persist back to the bus. The
/// actuator bit is not touched: `heater_on` and the interlock bit pass
/// through unchanged, so a record read with the medium absent is
/// persisted still showing it absent.
pub fn fast_tick(pid: &mut PidRegulator, record: &PlcData, target_centi: i32) -> (updated:
    PlcData)
    requires
        old(pid).wf(),
        -TEMP_CENTI_MAX <= target_centi <= TEMP_CENTI_MAX,
    ensures
        final(pid).wf(),
        final(pid).params == old(pid).params,
        updated.temp_ai == record.temp_ai,
        updated.current_centi == raw_to_centi_temp(record.temp_ai as int),
        updated.target_centi == target_centi,
        updated.water_present == record.water_present,
        updated.heater_on == record.heater_on,
        updated.heater_enabled == (spec_control_output(
            *old(pid),
            raw_to_centi_temp(record.temp_ai as int),
        ) >= 0),
        updated.power_centi == clamp_power_centi(
            spec_control_output(*old(pid), raw_to_centi_temp(record.temp_ai as int)),
        ),
        0 <= updated.power_centi <= POWER_FULL_CENTI,
{
    let temperature_centi = scale_to_temperature(record.temp_ai);
    let output = pid.next_output(temperature_centi as i64);
    let (power, heater_enabled) = clamp_power(output);
    PlcData {
        temp_ai: record.temp_ai,
        power_centi: power as i32,
        target_centi,
        current_centi: temperature_centi,
        water_present: record.water_present,
        heater_enabled,
        heater_on: record.heater_on,
    }
}

/// Everything one slow actuation tick decides: the ON/OFF schedule for
/// the period, and the two records to persist — the heater marked ON
/// before the ON hold, and marked OFF before the OFF hold.
pub struct SlowTickPlan {
    pub window: DutyCycleWindow,
    pub record_on: PlcData,
    pub record_off: PlcData,
}

/// One slow actuation tick: schedules the last persisted power level
/// over the slow period. The host writes `record_on`, holds for the ON
/// duration, writes `record_off`, and holds for the OFF duration; its
/// sleeps occupy the tick, so the effective slow period exceeds the
/// nominal one by the actuation overhead.
pub fn slow_tick(record: &PlcData, period_ms: u64) -> (plan: SlowTickPlan)
    requires
        period_ms <= PERIOD_MS_MAX,
    ensures
        plan.window.wf(),
        plan.window.period_ms == period_ms,
        plan.window.on_ms == period_ms * clamp_power_centi(record.power_centi as int) / (
        POWER_FULL_CENTI as int),
        plan.window.on_ms + plan.window.off_ms == period_ms,
        record.power_centi <= 0 ==> plan.window.on_ms == 0,
        record.power_centi >= POWER_FULL_CENTI ==> plan.window.on_ms == period_ms,
        plan.record_on == (PlcData { heater_on: true, ..*record }),
        plan.record_off == (PlcData { heater_on: false, ..*record }),
{
    let window = compute_window(record.power_centi as i64, period_ms);
    let record_on = PlcData { heater_on: true, ..*record };
    let record_off = PlcData { heater_on: false, ..*record };
    SlowTickPlan { window, record_on, record_off }
}

} // verus!
