use esms_backend::models::SensorReading;
use esms_backend::state::{AppState, MAX_READINGS};

fn reading_at(id: u128, temperature: i64, timestamp: i64) -> SensorReading {
    SensorReading {
        id,
        temperature,
        humidity: 500,
        sound: 2000,
        heart_rate: 700,
        timestamp,
        correlation_id: None,
    }
}

#[test]
fn test_app_state_creation() {
    let state = AppState::new();
    assert!(state.get_latest().is_none());
    assert_eq!(state.total_readings(), 0);
}

#[test]
fn test_add_reading() {
    let mut state = AppState::new();
    let reading = SensorReading::new(250, 550, 3000, 720);

    state.add_reading(reading.clone());

    assert_eq!(state.total_readings(), 1);
    let latest = state.get_latest().unwrap();
    assert_eq!(latest.temperature, 250);
}

#[test]
fn test_circular_buffer() {
    let mut state = AppState::new();

    // Add MAX_READINGS + 10 readings.
    for i in 0..(MAX_READINGS + 10) {
        let reading = SensorReading::new(200 + (i as i64) / 10, 500, 2000, 700);
        state.add_reading(reading);
    }

    // Should only have MAX_READINGS stored.
    assert_eq!(state.get_all().len(), MAX_READINGS);
    // But total count should be all readings.
    assert_eq!(state.total_readings(), (MAX_READINGS + 10) as u64);
}

#[test]
fn test_get_recent() {
    let mut state = AppState::new();

    for i in 0..10 {
        state.add_reading(SensorReading::new(200 + 10 * i as i64, 500, 2000, 700));
    }

    let recent = state.get_recent(5);
    assert_eq!(recent.len(), 5);
    // Most recent should be first.
    assert_eq!(recent[0].temperature, 290);
}

#[test]
fn test_statistics() {
    let mut state = AppState::new();

    state.add_reading(SensorReading::new(200, 400, 1000, 600));
    state.add_reading(SensorReading::new(300, 600, 2000, 800));

    let stats = state.get_statistics();

    assert_eq!(stats.count, 2);
    assert_eq!(stats.avg_temperature, 25_000);
    assert_eq!(stats.avg_humidity, 50_000);
    assert_eq!(stats.min_temperature, 20_000);
    assert_eq!(stats.max_temperature, 30_000);
}

#[test]
fn test_client_management() {
    let mut state = AppState::new();

    state.add_client("client-1".to_string());
    state.add_client("client-2".to_string());

    assert_eq!(state.client_count(), 2);

    state.remove_client("client-1");

    assert_eq!(state.client_count(), 1);
}

#[test]
fn statistics_on_empty_store_are_zero() {
    let state = AppState::new();
    let stats = state.get_statistics();
    assert_eq!(stats.count, 0);
    assert_eq!(stats.avg_temperature, 0);
    assert_eq!(stats.avg_humidity, 0);
    assert_eq!(stats.avg_sound, 0);
    assert_eq!(stats.avg_heart_rate, 0);
    assert_eq!(stats.min_temperature, 0);
    assert_eq!(stats.max_temperature, 0);
    assert_eq!(stats.min_heart_rate, 0);
    assert_eq!(stats.max_heart_rate, 0);
}

#[test]
fn statistics_all_channels_exact() {
    let mut state = AppState::new();
    state.add_reading(reading_at(1, 200, 10));
    state.add_reading(SensorReading {
        id: 2,
        temperature: 300,
        humidity: 700,
        sound: 4000,
        heart_rate: 900,
        timestamp: 20,
        correlation_id: None,
    });
    let stats = state.get_statistics();
    assert_eq!(stats.count, 2);
    // Second reading: humidity 700, sound 4000, heart rate 900; first
    // reading supplies 500, 2000, 700.
    assert_eq!(stats.avg_humidity, 60_000);
    assert_eq!(stats.avg_sound, 300_000);
    assert_eq!(stats.avg_heart_rate, 80_000);
    assert_eq!(stats.min_heart_rate, 70_000);
    assert_eq!(stats.max_heart_rate, 90_000);
}

#[test]
fn eviction_keeps_most_recent_in_order() {
    let mut state = AppState::with_capacity(3);
    state.add_reading(reading_at(1, 200, 10));
    state.add_reading(reading_at(2, 210, 20));
    state.add_reading(reading_at(3, 220, 30));
    state.add_reading(reading_at(4, 230, 40));

    let all = state.get_all();
    assert_eq!(all.len(), 3);
    assert_eq!(all[0].id, 2);
    assert_eq!(all[1].id, 3);
    assert_eq!(all[2].id, 4);
    assert_eq!(state.total_readings(), 4);
}

#[test]
fn recent_first_element_is_latest() {
    let mut state = AppState::new();
    state.add_reading(reading_at(7, 200, 10));
    state.add_reading(reading_at(8, 210, 20));
    let recent = state.get_recent(2);
    let latest = state.get_latest().unwrap();
    assert_eq!(recent.len(), 2);
    assert_eq!(recent[0].id, latest.id);
    // recent(0) is empty, recent(k) never exceeds the stored length.
    assert_eq!(state.get_recent(0).len(), 0);
    assert_eq!(state.get_recent(99).len(), 2);
}

#[test]
fn range_query_is_chronological_and_inclusive() {
    let mut state = AppState::new();
    state.add_reading(reading_at(1, 200, 100));
    state.add_reading(reading_at(2, 210, 200));
    state.add_reading(reading_at(3, 220, 300));
    let in_range = state.get_range(100, 200);
    assert_eq!(in_range.len(), 2);
    assert_eq!(in_range[0].id, 1);
    assert_eq!(in_range[1].id, 2);
    assert_eq!(state.get_range(301, 400).len(), 0);
}

#[test]
fn readings_since_filters_by_cutoff() {
    let mut state = AppState::new();
    state.add_reading(reading_at(1, 200, 100));
    state.add_reading(reading_at(2, 210, 200));
    let since = state.readings_since(150);
    assert_eq!(since.len(), 1);
    assert_eq!(since[0].id, 2);
    assert_eq!(state.readings_since(i64::MIN).len(), 2);
}

#[test]
fn minutes_window_at_a_given_clock_is_exact() {
    let mut state = AppState::new();
    state.add_reading(reading_at(1, 200, 60_000));
    state.add_reading(reading_at(2, 210, 120_000));
    state.add_reading(reading_at(3, 220, 180_000));
    // At clock 180 000 ms, one minute back reaches exactly 120 000 ms.
    let window = state.since_minutes_at(180_000, 1);
    assert_eq!(window.len(), 2);
    assert_eq!(window[0].id, 2);
    assert_eq!(window[1].id, 3);
    // Zero minutes keeps only readings stamped at or after the clock.
    let window = state.since_minutes_at(180_000, 0);
    assert_eq!(window.len(), 1);
    assert_eq!(window[0].id, 3);
    // A negative clock difference saturates instead of wrapping.
    let window = state.since_minutes_at(i64::MIN, 1);
    assert_eq!(window.len(), 3);
}

#[test]
fn uptime_at_a_given_clock_is_exact() {
    let state = AppState::new();
    // A clock reading earlier than the creation time reports zero.
    assert_eq!(state.uptime_at(i64::MIN), 0);
    // Ten whole seconds on the clock are ten seconds of uptime.
    let now = chrono::Utc::now().timestamp_millis();
    let base = state.uptime_at(now);
    assert_eq!(state.uptime_at(now + 10_000), base + 10);
}

#[test]
fn last_minutes_keeps_future_readings() {
    let mut state = AppState::new();
    state.add_reading(reading_at(1, 200, 0));
    state.add_reading(reading_at(2, 210, i64::MAX));
    let recent = state.get_last_minutes(0);
    assert_eq!(recent.len(), 1);
    assert_eq!(recent[0].id, 2);
}

#[test]
fn client_registry_is_idempotent() {
    let mut state = AppState::new();
    state.add_client("a".to_string());
    state.add_client("a".to_string());
    assert_eq!(state.client_count(), 1);
    state.remove_client("missing");
    assert_eq!(state.client_count(), 1);
    state.remove_client("a");
    assert_eq!(state.client_count(), 0);
    state.remove_client("a");
    assert_eq!(state.client_count(), 0);
}

#[test]
fn last_reading_time_tracks_latest() {
    let mut state = AppState::new();
    assert!(state.last_reading_time().is_none());
    state.add_reading(reading_at(1, 200, 12345));
    assert_eq!(state.last_reading_time(), Some(12345));
}
