use esms_backend::models::{SensorInput, SensorReading};
use esms_backend::validation::validate_sensor_reading;

#[test]
fn test_sensor_reading_creation() {
    let reading = SensorReading::new(250, 550, 3000, 720);

    assert_eq!(reading.temperature, 250);
    assert_eq!(reading.humidity, 550);
    assert_eq!(reading.sound, 3000);
    assert_eq!(reading.heart_rate, 720);
    assert!(reading.correlation_id.is_some());
}

#[test]
fn test_stress_indicators_normal() {
    let reading = SensorReading::new(220, 500, 2000, 700);
    let indicators = reading.stress_indicators();

    assert!(!indicators.high_temperature);
    assert!(!indicators.high_humidity);
    assert!(!indicators.high_noise);
    assert!(!indicators.elevated_heart_rate);
    assert_eq!(indicators.active_count(), 0);
}

#[test]
fn test_stress_indicators_high_temp() {
    let reading = SensorReading::new(320, 500, 2000, 700);
    let indicators = reading.stress_indicators();

    assert!(indicators.high_temperature);
    assert_eq!(indicators.active_count(), 1);
}

#[test]
fn test_stress_indicators_multiple() {
    let reading = SensorReading::new(320, 800, 6000, 1100);
    let indicators = reading.stress_indicators();

    assert!(indicators.high_temperature);
    assert!(indicators.high_humidity);
    assert!(indicators.high_noise);
    assert!(indicators.elevated_heart_rate);
    assert_eq!(indicators.active_count(), 4);
}

#[test]
fn test_sensor_input_conversion() {
    let input = SensorInput {
        temperature: 240,
        humidity: 600,
        sound: 2500,
        heart_rate: 750,
        timestamp: None,
    };

    let reading = SensorReading::from_input(input);

    assert_eq!(reading.temperature, 240);
    assert_eq!(reading.humidity, 600);
}

#[test]
fn test_sensor_reading_validation() {
    // Valid reading.
    let valid = SensorReading::new(250, 550, 3000, 720);
    assert!(validate_sensor_reading(&valid).is_ok());

    // Invalid temperature (too high).
    let invalid = SensorReading::new(1000, 550, 3000, 720);
    assert!(validate_sensor_reading(&invalid).is_err());

    // Invalid heart rate (too low).
    let invalid = SensorReading::new(250, 550, 3000, 200);
    assert!(validate_sensor_reading(&invalid).is_err());
}

#[test]
fn input_conversion_keeps_given_timestamp() {
    let input = SensorInput {
        temperature: 240,
        humidity: 600,
        sound: 2500,
        heart_rate: 750,
        timestamp: Some(424242),
    };
    let reading = SensorReading::from_input(input);
    assert_eq!(reading.timestamp, 424242);
    assert!(reading.correlation_id.is_some());
}

#[test]
fn low_thresholds_flag_stress() {
    let reading = SensorReading::new(170, 290, 2000, 490);
    let indicators = reading.stress_indicators();
    assert!(indicators.low_temperature);
    assert!(indicators.low_humidity);
    assert!(indicators.low_heart_rate);
    assert_eq!(indicators.active_count(), 3);
}
