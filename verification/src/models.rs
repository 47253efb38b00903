//! Core data model: one captured sample of the four telemetry channels,
//! the derived stress-indicator flags, the ingestion input shape, and the
//! streaming message kinds.
//!
//! Channel values are fixed-point integers in tenths of the physical unit
//! (tenths of a degree Celsius, tenths of a percent relative humidity,
//! tenths of an analog sound unit, tenths of a beat per minute). A tenth is
//! the finest precision the system ever produces or serves, so the
//! representation is exact.

use vstd::prelude::*;

use crate::sys;
use crate::validation::SensorConstraints;

verus! {

/// Raw sensor reading from the temperature/humidity, sound level, and
/// heart-rate sensors.
#[derive(Debug, Clone)]
pub struct SensorReading {
    /// Unique identifier for this reading.
    pub id: u128,
    /// Temperature in tenths of a degree Celsius.
    pub temperature: i64,
    /// Relative humidity in tenths of a percent.
    pub humidity: i64,
    /// Sound level in tenths of an analog unit.
    pub sound: i64,
    /// Heart rate in tenths of a beat per minute.
    pub heart_rate: i64,
    /// Capture time in milliseconds since the Unix epoch.
    pub timestamp: i64,
    /// Optional correlation token for request tracing.
    pub correlation_id: Option<String>,
}

impl SensorReading {
    /// A reading is well formed when every channel lies within the
    /// physical range of its sensor.
    pub open spec fn wf(&self) -> bool {
        &&& SensorConstraints::TEMP_MIN <= self.temperature <= SensorConstraints::TEMP_MAX
        &&& SensorConstraints::HUMIDITY_MIN <= self.humidity <= SensorConstraints::HUMIDITY_MAX
        &&& SensorConstraints::SOUND_MIN <= self.sound <= SensorConstraints::SOUND_MAX
        &&& SensorConstraints::HR_MIN <= self.heart_rate <= SensorConstraints::HR_MAX
    }

    /// Create a new sensor reading with a fresh identifier, the current
    /// timestamp and a fresh correlation token.
    pub fn new(temperature: i64, humidity: i64, sound: i64, heart_rate: i64) -> (r: SensorReading)
        ensures
            r.temperature == temperature,
            r.humidity == humidity,
            r.sound == sound,
            r.heart_rate == heart_rate,
            r.correlation_id is Some,
    {
        SensorReading {
            id: sys::fresh_uuid_int(),
            temperature,
            humidity,
            sound,
            heart_rate,
            timestamp: sys::now_millis(),
            correlation_id: Some(sys::fresh_uuid_string()),
        }
    }

    /// Check whether environmental conditions indicate potential stress
    /// factors. This is not a diagnostic tool; it only flags correlations.
    pub fn stress_indicators(&self) -> (r: StressIndicators)
        ensures
            r == self.spec_stress_indicators(),
    {
        StressIndicators {
            high_temperature: self.temperature > 280,
            low_temperature: self.temperature < 180,
            high_humidity: self.humidity > 700,
            low_humidity: self.humidity < 300,
            high_noise: self.sound > 5000,
            elevated_heart_rate: self.heart_rate > 1000,
            low_heart_rate: self.heart_rate < 500,
        }
    }

    /// The stress-indicator flags of a reading: each channel compared with
    /// its comfort threshold (28.0 / 18.0 degrees, 70.0 / 30.0 percent,
    /// 500 sound units, 100 / 50 beats per minute, all in tenths).
    pub open spec fn spec_stress_indicators(&self) -> StressIndicators {
        StressIndicators {
            high_temperature: self.temperature > 280,
            low_temperature: self.temperature < 180,
            high_humidity: self.humidity > 700,
            low_humidity: self.humidity < 300,
            high_noise: self.sound > 5000,
            elevated_heart_rate: self.heart_rate > 1000,
            low_heart_rate: self.heart_rate < 500,
        }
    }

    /// Build a reading from an ingestion input: channels are copied, the
    /// timestamp defaults to the current time, and a fresh identifier and
    /// correlation token are attached.
    pub fn from_input(input: SensorInput) -> (r: SensorReading)
        ensures
            r.temperature == input.temperature,
            r.humidity == input.humidity,
            r.sound == input.sound,
            r.heart_rate == input.heart_rate,
            input.timestamp matches Some(t) ==> r.timestamp == t,
            r.correlation_id is Some,
    {
        let timestamp: i64 = match input.timestamp {
            Some(t) => t,
            None => sys::now_millis(),
        };
        SensorReading {
            id: sys::fresh_uuid_int(),
            temperature: input.temperature,
            humidity: input.humidity,
            sound: input.sound,
            heart_rate: input.heart_rate,
            timestamp,
            correlation_id: Some(sys::fresh_uuid_string()),
        }
    }
}

/// Stress indicator flags (non-diagnostic).
#[derive(Debug, Clone, Copy, PartialEq, Eq, Structural)]
pub struct StressIndicators {
    pub high_temperature: bool,
    pub low_temperature: bool,
    pub high_humidity: bool,
    pub low_humidity: bool,
    pub high_noise: bool,
    pub elevated_heart_rate: bool,
    pub low_heart_rate: bool,
}

impl StressIndicators {
    /// The number of flags that are set, as a mathematical count.
    pub open spec fn spec_active_count(&self) -> int {
        (if self.high_temperature { 1int } else { 0 })
        + (if self.low_temperature { 1int } else { 0 })
        + (if self.high_humidity { 1int } else { 0 })
        + (if self.low_humidity { 1int } else { 0 })
        + (if self.high_noise { 1int } else { 0 })
        + (if self.elevated_heart_rate { 1int } else { 0 })
        + (if self.low_heart_rate { 1int } else { 0 })
    }

    /// Count the number of active stress indicators.
    pub fn active_count(&self) -> (r: u8)
        ensures
            r == self.spec_active_count(),
    {
        let mut count: u8 = 0;
        if self.high_temperature { count += 1; }
        if self.low_temperature { count += 1; }
        if self.high_humidity { count += 1; }
        if self.low_humidity { count += 1; }
        if self.high_noise { count += 1; }
        if self.elevated_heart_rate { count += 1; }
        if self.low_heart_rate { count += 1; }
        count
    }
}

/// Input shape for sensor data ingestion. Channels use the same tenths
/// fixed-point representation as `SensorReading`; the timestamp, when
/// given, is in milliseconds since the Unix epoch.
#[derive(Debug, Clone)]
pub struct SensorInput {
    pub temperature: i64,
    pub humidity: i64,
    pub sound: i64,
    pub heart_rate: i64,
    /// Optional client-provided timestamp (defaults to server time).
    pub timestamp: Option<i64>,
}

/// Streaming message kinds exchanged with a connected client.
#[derive(Debug, Clone)]
pub enum WsMessage {
    /// New sensor reading available.
    SensorUpdate(SensorReading),
    /// Connection acknowledgment.
    Connected { client_id: String },
    /// Error message.
    Error { message: String },
    /// Heartbeat/ping.
    Ping,
    /// Heartbeat/pong response.
    Pong,
}

/// Health check response data.
#[derive(Debug, Clone)]
pub struct HealthCheck {
    pub status: String,
    pub version: String,
    /// Time the health report was made, in milliseconds since the epoch.
    pub timestamp: i64,
    pub uptime_seconds: u64,
    /// Capture time of the most recent reading, if any.
    pub last_reading: Option<i64>,
}

} // verus!
