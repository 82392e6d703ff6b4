use heatctl::coordinator::{
    be16_from_bytes, be32_from_bytes, decode_record, decode_status_byte, encode_status_byte,
    fast_tick, slow_tick, PlcData,
};
use heatctl::pid_regulator::{startup_parameters, PidRegulator};

fn sample_record() -> PlcData {
    PlcData {
        temp_ai: 13824,
        power_centi: 7700,
        target_centi: 3000,
        current_centi: -4000,
        water_present: true,
        heater_enabled: true,
        heater_on: false,
    }
}

#[test]
fn status_byte_packs_three_bits() {
    assert_eq!(encode_status_byte(false, false, false), 0);
    assert_eq!(encode_status_byte(true, false, false), 1);
    assert_eq!(encode_status_byte(false, true, false), 2);
    assert_eq!(encode_status_byte(false, false, true), 4);
    assert_eq!(encode_status_byte(true, true, true), 7);
}

#[test]
fn status_byte_round_trips() {
    for water in [false, true] {
        for enabled in [false, true] {
            for on in [false, true] {
                let byte = encode_status_byte(water, enabled, on);
                assert_eq!(decode_status_byte(byte), (water, enabled, on));
            }
        }
    }
}

#[test]
fn record_serializes_big_endian() {
    let bytes = sample_record().to_bytes();
    assert_eq!(bytes.len(), 15);
    // 13824 = 0x3600.
    assert_eq!(&bytes[0..2], &[0x36, 0x00]);
    // 7700 = 0x1E14.
    assert_eq!(&bytes[2..6], &[0x00, 0x00, 0x1E, 0x14]);
    // 3000 = 0x0BB8.
    assert_eq!(&bytes[6..10], &[0x00, 0x00, 0x0B, 0xB8]);
    // -4000 in two's complement is 0xFFFFF060.
    assert_eq!(&bytes[10..14], &[0xFF, 0xFF, 0xF0, 0x60]);
    // Water bit 0 and enablement bit 1 set, heater bit 2 clear.
    assert_eq!(bytes[14], 3);
}

#[test]
fn record_round_trips_through_bytes() {
    let record = sample_record();
    let bytes = record.to_bytes();
    let decoded = decode_record(
        Some([bytes[0], bytes[1]]),
        Some([bytes[2], bytes[3], bytes[4], bytes[5]]),
        Some([bytes[6], bytes[7], bytes[8], bytes[9]]),
        Some([bytes[10], bytes[11], bytes[12], bytes[13]]),
        Some(bytes[14]),
    );
    assert_eq!(decoded.temp_ai, record.temp_ai);
    assert_eq!(decoded.power_centi, record.power_centi);
    assert_eq!(decoded.target_centi, record.target_centi);
    assert_eq!(decoded.current_centi, record.current_centi);
    assert_eq!(decoded.water_present, record.water_present);
    assert_eq!(decoded.heater_enabled, record.heater_enabled);
    assert_eq!(decoded.heater_on, record.heater_on);
}

#[test]
fn failed_reads_fall_back_to_defaults() {
    let decoded = decode_record(None, None, None, None, None);
    assert_eq!(decoded.temp_ai, 0);
    assert_eq!(decoded.power_centi, 0);
    assert_eq!(decoded.target_centi, 0);
    assert_eq!(decoded.current_centi, 0);
    assert!(!decoded.water_present);
    assert!(!decoded.heater_enabled);
    assert!(!decoded.heater_on);
}

#[test]
fn be_values_reassemble() {
    assert_eq!(be16_from_bytes([0x36, 0x00]), 13824);
    assert_eq!(be32_from_bytes([0xFF, 0xFF, 0xF0, 0x60]), 0xFFFF_F060);
    assert_eq!(be32_from_bytes([0xFF, 0xFF, 0xF0, 0x60]) as i32, -4000);
}

#[test]
fn fast_tick_updates_telemetry_without_actuating() {
    let mut pid = PidRegulator::new(startup_parameters(3000));
    let record = PlcData {
        temp_ai: 0,
        power_centi: 0,
        target_centi: 0,
        current_centi: 0,
        water_present: false,
        heater_on: true,
        heater_enabled: false,
    };
    let updated = fast_tick(&mut pid, &record, 3000);
    // Raw 0 scales to -40.00 degrees; error 70.00 degrees yields
    // proportional 70% plus one integral step 7%.
    assert_eq!(updated.current_centi, -4000);
    assert_eq!(updated.target_centi, 3000);
    assert_eq!(updated.power_centi, 7700);
    assert!(updated.heater_enabled);
    // The actuator bit and the interlock bit pass through unchanged:
    // the persisted record still shows the medium absent.
    assert!(updated.heater_on);
    assert!(!updated.water_present);
    assert_eq!(updated.temp_ai, 0);
}

#[test]
fn fast_tick_negative_output_disables_heater() {
    let mut pid = PidRegulator::new(startup_parameters(-1000));
    let record = sample_record();
    let updated = fast_tick(&mut pid, &record, -1000);
    assert_eq!(updated.power_centi, 0);
    assert!(!updated.heater_enabled);
}

#[test]
fn slow_tick_schedules_persisted_power() {
    let record = sample_record();
    let plan = slow_tick(&record, 10000);
    assert_eq!(plan.window.on_ms, 7700);
    assert_eq!(plan.window.off_ms, 2300);
    assert!(plan.record_on.heater_on);
    assert!(!plan.record_off.heater_on);
    // Everything but the actuator bit is carried over.
    assert_eq!(plan.record_on.power_centi, record.power_centi);
    assert_eq!(plan.record_off.power_centi, record.power_centi);
    assert_eq!(plan.record_on.temp_ai, record.temp_ai);
}
