use aht20_monitor::bus::Fault;
use aht20_monitor::sensor::{
    status_busy, status_calibrated, CalibratedReading, Sensor, SensorError, CYCLE_DELAY_MS,
    INIT_SETTLE_MS, MAX_INIT_POLLS, MEASUREMENT_DELAY_MS, MEASUREMENT_LEN, SENSOR_ADDRESS,
    STATUS_CALIBRATED_MASK,
};

#[test]
fn init_command_sequence() {
    let sensor = Sensor::new(SENSOR_ADDRESS);
    assert_eq!(sensor.init_commands(), vec![0xBE, 0x08, 0x00]);
}

#[test]
fn init_succeeds_on_calibrated_status() {
    let sensor = Sensor::new(SENSOR_ADDRESS);
    let ready = sensor.complete_init(Ok(0x18)).expect("calibrated status must initialize");
    assert_eq!(ready.address(), SENSOR_ADDRESS);
}

#[test]
fn init_fails_when_calibration_bit_clear() {
    let sensor = Sensor::new(SENSOR_ADDRESS);
    let status: u8 = 0x10;
    assert_eq!(status & STATUS_CALIBRATED_MASK, 0);
    assert!(matches!(
        sensor.complete_init(Ok(status)),
        Err(SensorError::InitializationFailed)
    ));
}

#[test]
fn init_fails_when_status_read_fails() {
    let sensor = Sensor::new(SENSOR_ADDRESS);
    assert!(matches!(
        sensor.complete_init(Err(Fault::NoAcknowledge)),
        Err(SensorError::InitializationFailed)
    ));
}

#[test]
fn trigger_command_sequence() {
    let ready = Sensor::new(SENSOR_ADDRESS).complete_init(Ok(0x08)).unwrap();
    assert_eq!(ready.trigger_commands(), vec![0xAC, 0x33, 0x00]);
}

#[test]
fn protocol_timing_constants() {
    assert_eq!(INIT_SETTLE_MS, 10);
    assert_eq!(MEASUREMENT_DELAY_MS, 80);
    assert_eq!(CYCLE_DELAY_MS, 1000);
    assert_eq!(MEASUREMENT_LEN, 7);
    assert!(MAX_INIT_POLLS > 0);
}

#[test]
fn status_bit_predicates() {
    assert!(status_calibrated(0x08));
    assert!(status_calibrated(0x18));
    assert!(!status_calibrated(0x80));
    assert!(!status_calibrated(0x00));
    assert!(status_busy(0x80));
    assert!(status_busy(0x88));
    assert!(!status_busy(0x08));
}

#[test]
fn good_frame_decodes_to_documented_reading() {
    // Frame layout [status, h_hi, h_mid, h_lo|t_hi, t_mid, t_lo, crc]:
    // both 20-bit fields are 0x80000, so the reading is 50 %RH and 50 C.
    let ready = Sensor::new(SENSOR_ADDRESS).complete_init(Ok(0x18)).unwrap();
    let frame: Vec<u8> = vec![0x18, 0x80, 0x00, 0x08, 0x00, 0x00, 0xD4];
    let reading = ready.process_measurement(&Ok(frame)).expect("valid frame must decode");
    assert_eq!(
        reading,
        CalibratedReading { humidity_milli_percent: 50_000, temperature_milli_celsius: 50_000 }
    );
    let humidity = reading.humidity_milli_percent as f64 / 1000.0;
    let temperature = reading.temperature_milli_celsius as f64 / 1000.0;
    assert!((humidity - 50.0).abs() < 1e-3);
    assert!((temperature - 50.0).abs() < 1e-3);
}

#[test]
fn corrupted_checksum_is_rejected_not_reported() {
    let ready = Sensor::new(SENSOR_ADDRESS).complete_init(Ok(0x18)).unwrap();
    let frame: Vec<u8> = vec![0x18, 0x80, 0x00, 0x08, 0x00, 0x00, 0xD4 ^ 0x01];
    assert_eq!(ready.process_measurement(&Ok(frame)), Err(SensorError::ReadFailed));
}

#[test]
fn corrupted_payload_is_rejected_not_reported() {
    let ready = Sensor::new(SENSOR_ADDRESS).complete_init(Ok(0x18)).unwrap();
    let frame: Vec<u8> = vec![0x18, 0x80, 0x40, 0x08, 0x00, 0x00, 0xD4];
    assert_eq!(ready.process_measurement(&Ok(frame)), Err(SensorError::ReadFailed));
}

#[test]
fn failed_transport_read_is_rejected() {
    let ready = Sensor::new(SENSOR_ADDRESS).complete_init(Ok(0x18)).unwrap();
    assert_eq!(
        ready.process_measurement(&Err(Fault::NoAcknowledge)),
        Err(SensorError::ReadFailed)
    );
}

#[test]
fn short_frame_is_rejected() {
    let ready = Sensor::new(SENSOR_ADDRESS).complete_init(Ok(0x18)).unwrap();
    let frame: Vec<u8> = vec![0x18, 0x80, 0x00];
    assert_eq!(ready.process_measurement(&Ok(frame)), Err(SensorError::ReadFailed));
}

#[test]
fn measurement_capability_exists_only_behind_initialization() {
    // The measurement operations live on the handle type that only
    // complete_init constructs, and only from a calibrated status: an
    // uninitialized handle has no measurement operation to call, and a
    // failed initialization yields no handle at all.
    let sensor = Sensor::new(SENSOR_ADDRESS);
    assert_eq!(sensor.address(), SENSOR_ADDRESS);
    match sensor.complete_init(Ok(0x00)) {
        Err(SensorError::InitializationFailed) => {}
        _ => panic!("an uncalibrated status must not produce a ready handle"),
    }
}
