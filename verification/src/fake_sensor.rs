//! Fake sensor data generator: the system's sole producer of readings.
//!
//! Four loosely-correlated channels are synthesized from slowly drifting
//! baselines, a shared phase accumulator driving sinusoidal circadian
//! terms, Gaussian noise, and rare sound spikes. The noise samples are
//! injected as plain integers in tenths of a unit, so the per-tick
//! derivation is fully specified and every tick is proved to produce a
//! reading clamped into the physical range of each channel, whatever the
//! samples were — the caller draws them from whatever random source it
//! runs.
//!
//! The generator is a plain state machine: `tick` produces one reading and
//! advances the phase, `shift_baselines` applies the occasional random
//! walk. The caller runs them on its own cadence and writes the readings
//! into the telemetry store.

use vstd::prelude::*;

use crate::models::SensorReading;
use crate::sys;

verus! {

/// One half-wave of the sine approximation: for a phase `p` in hundredths
/// of a radian within `[0, 314]` (one half period, with pi taken as 3.14),
/// the value `amp * sin(p / 100)` by Bhaskara's rational approximation.
pub open spec fn spec_sine_half(p: int, amp: int) -> int
    recommends
        0 <= p <= 314,
        amp >= 0,
{
    (amp * (16 * (p * (314 - p)))) / (5 * (314 * 314) - 4 * (p * (314 - p)))
}

/// The bounded sinusoidal term `amp * sin(x)`, with `x` in hundredths of a
/// radian reduced modulo one period and `amp` the amplitude: positive
/// half-wave on the first half period, negated on the second.
pub open spec fn spec_sine_term(x: int, amp: int) -> int
    recommends
        x >= 0,
        amp >= 0,
{
    let p = x % 628;
    if p <= 314 {
        spec_sine_half(p, amp)
    } else {
        -spec_sine_half(p - 314, amp)
    }
}

/// The half-wave approximation stays within `[0, amp]`.
proof fn lemma_sine_half_bounded(p: int, amp: int)
    requires
        0 <= p <= 314,
        amp >= 0,
    ensures
        0 <= spec_sine_half(p, amp) <= amp,
{
    let n = 16 * (p * (314 - p));
    let d = 5 * (314 * 314) - 4 * (p * (314 - p));
    assert(0 <= p * (314 - p) <= 24649) by (nonlinear_arith)
        requires
            0 <= p <= 314,
    ;
    assert(n <= d);
    assert(d >= 394384);
    assert(amp * n >= 0) by (nonlinear_arith)
        requires
            amp >= 0,
            n >= 0,
    ;
    assert(amp * n <= amp * d) by (nonlinear_arith)
        requires
            amp >= 0,
            n <= d,
    ;
    vstd::arithmetic::div_mod::lemma_div_pos_is_pos(amp * n, d);
    vstd::arithmetic::div_mod::lemma_div_is_ordered(amp * n, amp * d, d);
    vstd::arithmetic::div_mod::lemma_div_by_multiple(amp, d);
}

/// Evaluate the bounded sinusoidal term `amp * sin(x)`: `x` in hundredths
/// of a radian, the amplitude in tenths of a unit. The result never
/// exceeds the amplitude in magnitude.
fn sine_term_tenths(x_centi: u64, amp_tenths: u64) -> (r: i64)
    requires
        x_centi <= 10_000,
        amp_tenths <= 10_000,
    ensures
        r == spec_sine_term(x_centi as int, amp_tenths as int),
        -(amp_tenths as i64) <= r <= amp_tenths as i64,
{
    let p_full: u64 = x_centi % 628;
    let (p, negate): (u64, bool) = if p_full <= 314 {
        (p_full, false)
    } else {
        (p_full - 314, true)
    };
    let pi: i64 = p as i64;
    proof {
        assert(0 <= (pi as int) * (314 - pi as int) <= 24649) by (nonlinear_arith)
            requires
                0 <= pi <= 314,
        ;
    }
    let arch = pi * (314 - pi);
    proof {
        assert(0 <= (amp_tenths as int) * (16 * arch as int) <= 10_000 * 394_384) by (
        nonlinear_arith)
            requires
                0 <= amp_tenths <= 10_000,
                0 <= arch <= 24649,
        ;
    }
    let numerator = (amp_tenths as i64) * (16 * arch);
    let denominator = 5 * (314i64 * 314) - 4 * arch;
    let magnitude = numerator / denominator;
    proof {
        lemma_sine_half_bounded(p as int, amp_tenths as int);
        assert(numerator as int == (amp_tenths as int) * (16 * ((p as int) * (314
            - p as int))));
        assert(magnitude == spec_sine_half(p as int, amp_tenths as int));
    }
    if negate {
        -magnitude
    } else {
        magnitude
    }
}

/// Clamping of an integer into `[lo, hi]`.
pub open spec fn spec_clamp(x: int, lo: int, hi: int) -> int
    recommends
        lo <= hi,
{
    if x < lo {
        lo
    } else if x > hi {
        hi
    } else {
        x
    }
}

/// Clamp a wide intermediate value into a channel range.
fn clamp_i128(x: i128, lo: i64, hi: i64) -> (r: i64)
    requires
        lo <= hi,
    ensures
        r == spec_clamp(x as int, lo as int, hi as int),
        lo <= r <= hi,
{
    if x < lo as i128 {
        lo
    } else if x > hi as i128 {
        hi
    } else {
        x as i64
    }
}

/// Rounding of a non-negative tenths value to the nearest whole unit
/// (five tenths round up).
pub open spec fn spec_round_to_unit(x: int) -> int
    recommends
        x >= 0,
{
    ((x + 5) / 10) * 10
}

/// Round a clamped tenths value to a whole number of units, staying
/// within `[lo, hi]` (whose endpoints are whole units).
fn round_to_unit(x: i64, lo: i64, hi: i64) -> (r: i64)
    requires
        0 <= lo <= x <= hi,
        hi <= 100_000,
        lo % 10 == 0,
        hi % 10 == 0,
    ensures
        r == spec_round_to_unit(x as int),
        lo <= r <= hi,
        r % 10 == 0,
{
    let q = (x + 5) / 10;
    proof {
        vstd::arithmetic::div_mod::lemma_div_is_ordered(lo as int + 5, x as int + 5, 10);
        vstd::arithmetic::div_mod::lemma_div_is_ordered(x as int + 5, hi as int + 5, 10);
        assert((lo + 5) / 10 == lo / 10) by {
            vstd::arithmetic::div_mod::lemma_hoist_over_denominator(5, lo as int / 10, 10nat);
            vstd::arithmetic::div_mod::lemma_fundamental_div_mod_converse(
                lo as int,
                10,
                lo as int / 10,
                0,
            );
        };
        assert((hi + 5) / 10 == hi / 10) by {
            vstd::arithmetic::div_mod::lemma_hoist_over_denominator(5, hi as int / 10, 10nat);
            vstd::arithmetic::div_mod::lemma_fundamental_div_mod_converse(
                hi as int,
                10,
                hi as int / 10,
                0,
            );
        };
        vstd::arithmetic::div_mod::lemma_fundamental_div_mod_converse(
            lo as int,
            10,
            lo as int / 10,
            0,
        );
        vstd::arithmetic::div_mod::lemma_fundamental_div_mod_converse(
            hi as int,
            10,
            hi as int / 10,
            0,
        );
        vstd::arithmetic::div_mod::lemma_mod_multiples_basic(q as int, 10);
    }
    q * 10
}

/// The noise drawn for one tick, in tenths of a unit. The spike is zero
/// on the roughly nineteen of twenty ticks without a transient loud
/// event, and the sampled spike height otherwise. Any values are
/// acceptable: the tick clamps every channel into its physical range.
#[derive(Debug, Clone, Copy)]
pub struct TickSamples {
    /// Gaussian noise on the temperature channel (sigma 0.5 degrees).
    pub temperature_noise: i64,
    /// Gaussian noise on the humidity channel (sigma 2.0 percent).
    pub humidity_noise: i64,
    /// Gaussian noise on the sound channel (sigma 30 units).
    pub sound_noise: i64,
    /// Transient loud event: zero, or a spike of 200 to 500 units.
    pub sound_spike: i64,
    /// Gaussian noise on the heart-rate channel (sigma 3 beats).
    pub heart_rate_noise: i64,
}

/// The random walk drawn for one baseline shift, in tenths of a unit.
#[derive(Debug, Clone, Copy)]
pub struct BaselineSamples {
    /// Temperature baseline step, about minus one to one degree.
    pub temperature_step: i64,
    /// Humidity baseline step, about minus five to five percent.
    pub humidity_step: i64,
}

/// Fake sensor generator that produces realistic sensor data.
///
/// Baselines and ranges are in tenths of the physical unit; the drift
/// accumulator is in hundredths of a radian, wrapping at two pi.
#[derive(Debug)]
pub struct FakeSensorGenerator {
    /// Interval between readings in milliseconds.
    interval_ms: u64,
    /// Base temperature (simulated room temperature), tenths of a degree.
    base_temperature: i64,
    /// Base humidity (simulated ambient humidity), tenths of a percent.
    base_humidity: i64,
    /// Base sound level (simulated ambient noise), tenths of a unit.
    base_sound: i64,
    /// Base heart rate (resting heart rate), tenths of a beat per minute.
    base_heart_rate: i64,
    /// Phase accumulator for gradual changes, hundredths of a radian.
    drift_factor: u64,
}

impl FakeSensorGenerator {
    /// The configured tick interval in milliseconds.
    pub closed spec fn spec_interval_ms(&self) -> u64 {
        self.interval_ms
    }

    /// The temperature baseline, tenths of a degree.
    pub closed spec fn spec_base_temperature(&self) -> i64 {
        self.base_temperature
    }

    /// The humidity baseline, tenths of a percent.
    pub closed spec fn spec_base_humidity(&self) -> i64 {
        self.base_humidity
    }

    /// The sound baseline, tenths of a unit.
    pub closed spec fn spec_base_sound(&self) -> i64 {
        self.base_sound
    }

    /// The heart-rate baseline, tenths of a beat per minute.
    pub closed spec fn spec_base_heart_rate(&self) -> i64 {
        self.base_heart_rate
    }

    /// The phase accumulator, hundredths of a radian.
    pub closed spec fn spec_drift_factor(&self) -> u64 {
        self.drift_factor
    }

    /// Generator invariant: baselines stay within their policy ranges and
    /// the phase stays below two pi.
    pub open spec fn wf(&self) -> bool {
        &&& 180 <= self.spec_base_temperature() <= 280
        &&& 350 <= self.spec_base_humidity() <= 650
        &&& 0 <= self.spec_base_sound() <= 10230
        &&& 500 <= self.spec_base_heart_rate() <= 1200
        &&& self.spec_drift_factor() <= 628
    }

    /// The phase after one tick: advanced by one hundredth of a radian,
    /// wrapping at two pi.
    pub open spec fn spec_next_drift(&self) -> int {
        if self.spec_drift_factor() + 1 > 628 {
            0int
        } else {
            self.spec_drift_factor() + 1
        }
    }

    /// The temperature a tick derives: baseline, plus a sinusoidal drift
    /// of amplitude 3.0 degrees at half the phase, plus the noise sample,
    /// clamped to 0.0..=50.0 degrees.
    pub open spec fn spec_tick_temperature(&self, samples: TickSamples) -> int {
        spec_clamp(
            self.spec_base_temperature() + spec_sine_term(self.spec_next_drift() / 2, 30)
                + samples.temperature_noise,
            0,
            500,
        )
    }

    /// The humidity a tick derives: baseline, minus twice the temperature
    /// drift term (inverse correlation), plus the noise sample, clamped
    /// to 20.0..=90.0 percent.
    pub open spec fn spec_tick_humidity(&self, samples: TickSamples) -> int {
        spec_clamp(
            self.spec_base_humidity() - 2 * spec_sine_term(self.spec_next_drift() / 2, 30)
                + samples.humidity_noise,
            200,
            900,
        )
    }

    /// The sound level a tick derives: baseline plus noise plus the spike
    /// sample, clamped to 0..=1023 units and rounded to a whole unit.
    pub open spec fn spec_tick_sound(&self, samples: TickSamples) -> int {
        spec_round_to_unit(
            spec_clamp(
                self.spec_base_sound() + samples.sound_noise + samples.sound_spike,
                0,
                10230,
            ),
        )
    }

    /// The heart rate a tick derives: baseline, plus a circadian
    /// sinusoidal term of amplitude 10 beats at twice the phase, plus the
    /// noise sample, clamped to 50..=120 and rounded to a whole beat.
    pub open spec fn spec_tick_heart_rate(&self, samples: TickSamples) -> int {
        spec_round_to_unit(
            spec_clamp(
                self.spec_base_heart_rate() + spec_sine_term(2 * self.spec_next_drift(), 100)
                    + samples.heart_rate_noise,
                500,
                1200,
            ),
        )
    }

    /// Create a new fake sensor generator with the default baselines:
    /// a comfortable room temperature of 22.0 degrees, 50.0 percent
    /// humidity, a quiet-room sound level of 150 units, and a resting
    /// heart rate of 70 beats per minute.
    pub fn new(interval_ms: u64) -> (r: FakeSensorGenerator)
        ensures
            r.wf(),
            r.spec_interval_ms() == interval_ms,
            r.spec_base_temperature() == 220,
            r.spec_base_humidity() == 500,
            r.spec_base_sound() == 1500,
            r.spec_base_heart_rate() == 700,
            r.spec_drift_factor() == 0,
    {
        FakeSensorGenerator {
            interval_ms,
            base_temperature: 220,
            base_humidity: 500,
            base_sound: 1500,
            base_heart_rate: 700,
            drift_factor: 0,
        }
    }

    /// The configured tick interval in milliseconds.
    pub fn interval_ms(&self) -> (r: u64)
        ensures
            r == self.spec_interval_ms(),
    {
        self.interval_ms
    }

    /// The current temperature baseline, tenths of a degree.
    pub fn base_temperature(&self) -> (r: i64)
        ensures
            r == self.spec_base_temperature(),
    {
        self.base_temperature
    }

    /// The current humidity baseline, tenths of a percent.
    pub fn base_humidity(&self) -> (r: i64)
        ensures
            r == self.spec_base_humidity(),
    {
        self.base_humidity
    }

    /// Produce one reading from the given noise samples and advance the
    /// phase accumulator. Whatever the samples were, the reading is
    /// clamped into the physical range of every channel: temperature in
    /// 0.0..=50.0 degrees, humidity in 20.0..=90.0 percent, sound in
    /// 0..=1023 whole units, heart rate in 50..=120 whole beats per
    /// minute.
    pub fn tick(&mut self, samples: TickSamples) -> (r: SensorReading)
        requires
            old(self).wf(),
        ensures
            final(self).wf(),
            r.temperature == old(self).spec_tick_temperature(samples),
            r.humidity == old(self).spec_tick_humidity(samples),
            r.sound == old(self).spec_tick_sound(samples),
            r.heart_rate == old(self).spec_tick_heart_rate(samples),
            0 <= r.temperature <= 500,
            200 <= r.humidity <= 900,
            0 <= r.sound <= 10230 && r.sound % 10 == 0,
            500 <= r.heart_rate <= 1200 && r.heart_rate % 10 == 0,
            r.wf(),
            r.correlation_id is Some,
            final(self).spec_drift_factor() == old(self).spec_next_drift(),
            final(self).spec_interval_ms() == old(self).spec_interval_ms(),
            final(self).spec_base_temperature() == old(self).spec_base_temperature(),
            final(self).spec_base_humidity() == old(self).spec_base_humidity(),
            final(self).spec_base_sound() == old(self).spec_base_sound(),
            final(self).spec_base_heart_rate() == old(self).spec_base_heart_rate(),
    {
        // Advance the phase accumulator, wrapping at two pi.
        self.drift_factor = if self.drift_factor + 1 > 628 {
            0
        } else {
            self.drift_factor + 1
        };

        // Temperature: baseline plus a slow sinusoidal drift of amplitude
        // 3.0 degrees plus Gaussian noise.
        let temp_drift = sine_term_tenths(self.drift_factor / 2, 30);
        let temperature = clamp_i128(
            self.base_temperature as i128 + temp_drift as i128 + samples.temperature_noise as i128,
            0,
            500,
        );

        // Humidity: baseline plus a term inversely proportional to the
        // temperature drift plus Gaussian noise.
        let humidity = clamp_i128(
            self.base_humidity as i128 - 2 * temp_drift as i128 + samples.humidity_noise as i128,
            200,
            900,
        );

        // Sound: baseline plus Gaussian noise plus the occasional spike.
        let sound_clamped = clamp_i128(
            self.base_sound as i128 + samples.sound_noise as i128 + samples.sound_spike as i128,
            0,
            10230,
        );
        let sound = round_to_unit(sound_clamped, 0, 10230);

        // Heart rate: baseline plus a circadian sinusoidal term of
        // amplitude 10 beats plus Gaussian noise.
        let hr_circadian = sine_term_tenths(self.drift_factor * 2, 100);
        let hr_clamped = clamp_i128(
            self.base_heart_rate as i128 + hr_circadian as i128
                + samples.heart_rate_noise as i128,
            500,
            1200,
        );
        let heart_rate = round_to_unit(hr_clamped, 500, 1200);

        SensorReading {
            id: sys::fresh_uuid_int(),
            temperature,
            humidity,
            sound,
            heart_rate,
            timestamp: sys::now_millis(),
            correlation_id: Some(sys::fresh_uuid_string()),
        }
    }

    /// Apply the occasional environmental random walk: shift the
    /// temperature baseline by the given step (staying within 18.0 to
    /// 28.0 degrees) and the humidity baseline by its step (staying
    /// within 35.0 to 65.0 percent).
    pub fn shift_baselines(&mut self, steps: BaselineSamples)
        requires
            old(self).wf(),
        ensures
            final(self).wf(),
            final(self).spec_base_temperature() == spec_clamp(
                old(self).spec_base_temperature() + steps.temperature_step,
                180,
                280,
            ),
            final(self).spec_base_humidity() == spec_clamp(
                old(self).spec_base_humidity() + steps.humidity_step,
                350,
                650,
            ),
            final(self).spec_interval_ms() == old(self).spec_interval_ms(),
            final(self).spec_base_sound() == old(self).spec_base_sound(),
            final(self).spec_base_heart_rate() == old(self).spec_base_heart_rate(),
            final(self).spec_drift_factor() == old(self).spec_drift_factor(),
    {
        self.base_temperature = clamp_i128(
            self.base_temperature as i128 + steps.temperature_step as i128,
            180,
            280,
        );
        self.base_humidity = clamp_i128(
            self.base_humidity as i128 + steps.humidity_step as i128,
            350,
            650,
        );
    }
}

/// Represents the expected serial data format from the hardware sensor
/// board: one line per reading, "T:26.4,H:61.2,S:180,HR:78". When real
/// sensors replace the generator, incoming serial lines are parsed into
/// `SensorReading` values and fed to the store unchanged.
#[derive(Debug)]
pub struct ArduinoSerialFormat {
    _marker: (),
}

} // verus!
