use esms_backend::error::AppError;
use esms_backend::models::SensorInput;
use esms_backend::validation::{validate_pagination, validate_sensor_input};

fn input(temperature: i64, humidity: i64, sound: i64, heart_rate: i64) -> SensorInput {
    SensorInput { temperature, humidity, sound, heart_rate, timestamp: None }
}

#[test]
fn test_valid_sensor_input() {
    assert!(validate_sensor_input(&input(250, 550, 3000, 720)).is_ok());
}

#[test]
fn test_invalid_temperature() {
    let result = validate_sensor_input(&input(1000, 550, 3000, 720));
    assert!(result.is_err());

    if let Err(AppError::ValidationError(msg)) = result {
        assert!(msg.contains("temperature") || msg.contains("Temperature"));
    } else {
        panic!("expected a validation error");
    }
}

#[test]
fn test_invalid_humidity() {
    assert!(validate_sensor_input(&input(250, 1500, 3000, 720)).is_err());
}

#[test]
fn test_invalid_heart_rate_low() {
    assert!(validate_sensor_input(&input(250, 550, 3000, 200)).is_err());
}

#[test]
fn test_invalid_sound_level() {
    assert!(validate_sensor_input(&input(250, 550, 20000, 720)).is_err());
}

#[test]
fn test_pagination_validation() {
    // Valid cases.
    assert!(validate_pagination(Some(1), Some(50)).is_ok());
    assert!(validate_pagination(None, None).is_ok());

    // Invalid cases.
    assert!(validate_pagination(Some(0), Some(50)).is_err());
    assert!(validate_pagination(Some(1), Some(0)).is_err());
    assert!(validate_pagination(Some(1), Some(2000)).is_err());
}

#[test]
fn pagination_applies_defaults() {
    assert_eq!(validate_pagination(None, None).unwrap(), (1, 100));
    assert_eq!(validate_pagination(Some(7), None).unwrap(), (7, 100));
    assert_eq!(validate_pagination(None, Some(1000)).unwrap(), (1, 1000));
}

#[test]
fn boundary_values_are_accepted() {
    assert!(validate_sensor_input(&input(-400, 0, 0, 300)).is_ok());
    assert!(validate_sensor_input(&input(800, 1000, 10230, 2200)).is_ok());
    assert!(validate_sensor_input(&input(-401, 0, 0, 300)).is_err());
    assert!(validate_sensor_input(&input(800, 1001, 0, 300)).is_err());
}
