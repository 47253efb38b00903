use esms_backend::fake_sensor::{BaselineSamples, FakeSensorGenerator, TickSamples};
use rand::Rng;

fn zero_samples() -> TickSamples {
    TickSamples {
        temperature_noise: 0,
        humidity_noise: 0,
        sound_noise: 0,
        sound_spike: 0,
        heart_rate_noise: 0,
    }
}

#[test]
fn test_generator_creation() {
    let generator = FakeSensorGenerator::new(1000);
    assert_eq!(generator.interval_ms(), 1000);
    assert_eq!(generator.base_temperature(), 220);
    assert_eq!(generator.base_humidity(), 500);
}

#[test]
fn quiet_tick_reproduces_the_baselines() {
    let mut generator = FakeSensorGenerator::new(1000);
    let reading = generator.tick(zero_samples());
    assert_eq!(reading.temperature, 220);
    assert_eq!(reading.humidity, 500);
    assert_eq!(reading.sound, 1500);
    assert_eq!(reading.heart_rate, 700);
    assert!(reading.correlation_id.is_some());
}

#[test]
fn every_tick_stays_in_range_under_random_noise() {
    let mut generator = FakeSensorGenerator::new(100);
    let mut rng = rand::thread_rng();
    for i in 0..5000u64 {
        let samples = if i % 97 == 0 {
            // Occasionally feed absurd samples: the ranges must hold anyway.
            TickSamples {
                temperature_noise: rng.gen_range(i64::MIN / 4..=i64::MAX / 4),
                humidity_noise: rng.gen_range(i64::MIN / 4..=i64::MAX / 4),
                sound_noise: rng.gen_range(i64::MIN / 4..=i64::MAX / 4),
                sound_spike: rng.gen_range(i64::MIN / 4..=i64::MAX / 4),
                heart_rate_noise: rng.gen_range(i64::MIN / 4..=i64::MAX / 4),
            }
        } else {
            let normal = rand_distr::Normal::new(0.0f64, 1.0).unwrap();
            let draw = |sigma: f64, rng: &mut rand::rngs::ThreadRng| -> i64 {
                (rand_distr::Distribution::sample(&normal, rng) * sigma).round() as i64
            };
            TickSamples {
                temperature_noise: draw(5.0, &mut rng),
                humidity_noise: draw(20.0, &mut rng),
                sound_noise: draw(300.0, &mut rng),
                sound_spike: if rng.gen_ratio(50, 1000) {
                    rng.gen_range(2000..=5000)
                } else {
                    0
                },
                heart_rate_noise: draw(30.0, &mut rng),
            }
        };
        let reading = generator.tick(samples);
        assert!((0..=500).contains(&reading.temperature));
        assert!((200..=900).contains(&reading.humidity));
        assert!((0..=10230).contains(&reading.sound));
        assert_eq!(reading.sound % 10, 0);
        assert!((500..=1200).contains(&reading.heart_rate));
        assert_eq!(reading.heart_rate % 10, 0);

        if i % 300 == 299 {
            generator.shift_baselines(BaselineSamples {
                temperature_step: rng.gen_range(-10..=10),
                humidity_step: rng.gen_range(-50..=50),
            });
            assert!((180..=280).contains(&generator.base_temperature()));
            assert!((350..=650).contains(&generator.base_humidity()));
        }
    }
}

#[test]
fn baseline_walk_is_clamped_to_policy_ranges() {
    let mut generator = FakeSensorGenerator::new(1000);
    for _ in 0..100 {
        generator.shift_baselines(BaselineSamples { temperature_step: 10, humidity_step: 50 });
    }
    assert_eq!(generator.base_temperature(), 280);
    assert_eq!(generator.base_humidity(), 650);
    for _ in 0..100 {
        generator.shift_baselines(BaselineSamples { temperature_step: -10, humidity_step: -50 });
    }
    assert_eq!(generator.base_temperature(), 180);
    assert_eq!(generator.base_humidity(), 350);
}

#[test]
fn circadian_drift_moves_the_channels() {
    let mut generator = FakeSensorGenerator::new(1000);
    // A quarter period in: the temperature drift term is near its
    // amplitude of 3.0 degrees and humidity moves inversely, twice as far.
    let mut reading = generator.tick(zero_samples());
    for _ in 0..313 {
        reading = generator.tick(zero_samples());
    }
    assert!(reading.temperature > 240, "temperature {}", reading.temperature);
    assert!(reading.humidity < 480, "humidity {}", reading.humidity);
}
