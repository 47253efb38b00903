//! Input validation for sensor data and API parameters.
//!
//! Ranges are expressed in the tenths fixed-point representation used by
//! `SensorReading`; being integers, the values are finite by construction.

use vstd::prelude::*;

use crate::error::AppError;
use crate::models::{SensorInput, SensorReading};

verus! {

/// Sensor data validation constraints, in tenths of the physical unit.
pub struct SensorConstraints;

impl SensorConstraints {
    /// Temperature sensor range: -40.0 to 80.0 degrees Celsius.
    pub const TEMP_MIN: i64 = -400;

    pub const TEMP_MAX: i64 = 800;

    /// Humidity sensor range: 0.0 to 100.0 percent.
    pub const HUMIDITY_MIN: i64 = 0;

    pub const HUMIDITY_MAX: i64 = 1000;

    /// Sound sensor range: 0 to 1023 analog units.
    pub const SOUND_MIN: i64 = 0;

    pub const SOUND_MAX: i64 = 10230;

    /// Heart-rate sensor range: 30 to 220 beats per minute.
    pub const HR_MIN: i64 = 300;

    pub const HR_MAX: i64 = 2200;
}

/// The four channel values of an input, each within its sensor's range.
pub open spec fn spec_input_in_range(input: SensorInput) -> bool {
    &&& SensorConstraints::TEMP_MIN <= input.temperature <= SensorConstraints::TEMP_MAX
    &&& SensorConstraints::HUMIDITY_MIN <= input.humidity <= SensorConstraints::HUMIDITY_MAX
    &&& SensorConstraints::SOUND_MIN <= input.sound <= SensorConstraints::SOUND_MAX
    &&& SensorConstraints::HR_MIN <= input.heart_rate <= SensorConstraints::HR_MAX
}

/// The validation outcome for four channel values, checked in the order
/// temperature, humidity, sound, heart rate: the message naming the
/// first out-of-range channel, or nothing when every channel is in
/// range.
pub open spec fn spec_range_error(t: i64, h: i64, s: i64, hr: i64) -> Option<Seq<char>> {
    if !(SensorConstraints::TEMP_MIN <= t <= SensorConstraints::TEMP_MAX) {
        Some("Temperature out of valid range"@)
    } else if !(SensorConstraints::HUMIDITY_MIN <= h <= SensorConstraints::HUMIDITY_MAX) {
        Some("Humidity out of valid range"@)
    } else if !(SensorConstraints::SOUND_MIN <= s <= SensorConstraints::SOUND_MAX) {
        Some("Sound level out of valid range"@)
    } else if !(SensorConstraints::HR_MIN <= hr <= SensorConstraints::HR_MAX) {
        Some("Heart rate out of physiologically valid range"@)
    } else {
        None
    }
}

/// Validate sensor input data: succeeds exactly when every channel lies
/// within its sensor's range; otherwise the error names the first
/// out-of-range channel, checked in the order temperature, humidity,
/// sound, heart rate.
pub fn validate_sensor_input(input: &SensorInput) -> (r: Result<(), AppError>)
    ensures
        r is Ok <==> spec_input_in_range(*input),
        match spec_range_error(input.temperature, input.humidity, input.sound, input.heart_rate) {
            None => r is Ok,
            Some(msg) => r matches Err(e) && e matches AppError::ValidationError(m) && m@ == msg,
        },
{
    validate_temperature(input.temperature)?;
    validate_humidity(input.humidity)?;
    validate_sound(input.sound)?;
    validate_heart_rate(input.heart_rate)?;
    Ok(())
}

/// Validate a stored reading: succeeds exactly when the reading is well
/// formed in the sense of `SensorReading::wf`; otherwise the error names
/// the first out-of-range channel, checked in the order temperature,
/// humidity, sound, heart rate.
pub fn validate_sensor_reading(reading: &SensorReading) -> (r: Result<(), AppError>)
    ensures
        r is Ok <==> reading.wf(),
        match spec_range_error(
            reading.temperature,
            reading.humidity,
            reading.sound,
            reading.heart_rate,
        ) {
            None => r is Ok,
            Some(msg) => r matches Err(e) && e matches AppError::ValidationError(m) && m@ == msg,
        },
{
    validate_temperature(reading.temperature)?;
    validate_humidity(reading.humidity)?;
    validate_sound(reading.sound)?;
    validate_heart_rate(reading.heart_rate)?;
    Ok(())
}

/// Validate a temperature value (tenths of a degree Celsius).
fn validate_temperature(value: i64) -> (r: Result<(), AppError>)
    ensures
        r is Ok <==> SensorConstraints::TEMP_MIN <= value <= SensorConstraints::TEMP_MAX,
        r matches Err(e) ==> e matches AppError::ValidationError(m)
            && m@ == "Temperature out of valid range"@,
{
    if value < SensorConstraints::TEMP_MIN || value > SensorConstraints::TEMP_MAX {
        Err(AppError::ValidationError("Temperature out of valid range".to_owned()))
    } else {
        Ok(())
    }
}

/// Validate a humidity value (tenths of a percent).
fn validate_humidity(value: i64) -> (r: Result<(), AppError>)
    ensures
        r is Ok <==> SensorConstraints::HUMIDITY_MIN <= value <= SensorConstraints::HUMIDITY_MAX,
        r matches Err(e) ==> e matches AppError::ValidationError(m)
            && m@ == "Humidity out of valid range"@,
{
    if value < SensorConstraints::HUMIDITY_MIN || value > SensorConstraints::HUMIDITY_MAX {
        Err(AppError::ValidationError("Humidity out of valid range".to_owned()))
    } else {
        Ok(())
    }
}

/// Validate a sound level value (tenths of an analog unit).
fn validate_sound(value: i64) -> (r: Result<(), AppError>)
    ensures
        r is Ok <==> SensorConstraints::SOUND_MIN <= value <= SensorConstraints::SOUND_MAX,
        r matches Err(e) ==> e matches AppError::ValidationError(m)
            && m@ == "Sound level out of valid range"@,
{
    if value < SensorConstraints::SOUND_MIN || value > SensorConstraints::SOUND_MAX {
        Err(AppError::ValidationError("Sound level out of valid range".to_owned()))
    } else {
        Ok(())
    }
}

/// Validate a heart rate value (tenths of a beat per minute).
fn validate_heart_rate(value: i64) -> (r: Result<(), AppError>)
    ensures
        r is Ok <==> SensorConstraints::HR_MIN <= value <= SensorConstraints::HR_MAX,
        r matches Err(e) ==> e matches AppError::ValidationError(m)
            && m@ == "Heart rate out of physiologically valid range"@,
{
    if value < SensorConstraints::HR_MIN || value > SensorConstraints::HR_MAX {
        Err(AppError::ValidationError(
            "Heart rate out of physiologically valid range".to_owned(),
        ))
    } else {
        Ok(())
    }
}

/// Validate pagination parameters: the page defaults to 1 and must be
/// positive; the limit defaults to 100 and must lie in 1..=1000.
pub fn validate_pagination(page: Option<u32>, limit: Option<u32>) -> (r: Result<
    (u32, u32),
    AppError,
>)
    ensures
        ({
            let p = match page { Some(p) => p, None => 1u32 };
            let l = match limit { Some(l) => l, None => 100u32 };
            &&& r is Ok <==> (p > 0 && 1 <= l <= 1000)
            &&& r matches Ok(pl) ==> pl == (p, l)
            &&& r matches Err(e) ==> e is ValidationError
        }),
{
    let p: u32 = match page {
        Some(p) => p,
        None => 1,
    };
    let l: u32 = match limit {
        Some(l) => l,
        None => 100,
    };
    if p == 0 {
        return Err(AppError::ValidationError("Page number must be greater than 0".to_owned()));
    }
    if l == 0 || l > 1000 {
        return Err(AppError::ValidationError("Limit must be between 1 and 1000".to_owned()));
    }
    Ok((p, l))
}

} // verus!
