use esms_backend::error::AppError;
use esms_backend::fhir::{
    to_fhir_bundle, to_fhir_combined_bundle, to_fhir_observation, ObservationType,
};
use esms_backend::models::SensorReading;

fn reading_with(id: u128, timestamp: i64) -> SensorReading {
    SensorReading {
        id,
        temperature: 255,
        humidity: 550,
        sound: 3000,
        heart_rate: 720,
        timestamp,
        correlation_id: None,
    }
}

#[test]
fn test_temperature_observation() {
    let reading = SensorReading::new(255, 550, 3000, 720);
    let obs =
        to_fhir_observation(&reading, ObservationType::Temperature, "Patient/test").unwrap();

    assert_eq!(obs.resource_type, "Observation");
    assert_eq!(obs.status, "final");
    assert_eq!(obs.code.coding[0].code, "8310-5");
    assert_eq!(obs.value_quantity.value, 255);
    assert_eq!(obs.value_quantity.unit, "째C");
}

#[test]
fn test_heart_rate_observation() {
    let reading = SensorReading::new(250, 550, 3000, 850);
    let obs = to_fhir_observation(&reading, ObservationType::HeartRate, "Patient/test").unwrap();

    assert_eq!(obs.code.coding[0].code, "8867-4");
    assert_eq!(obs.code.coding[0].system, "http://loinc.org");
    assert_eq!(obs.value_quantity.value, 850);
}

#[test]
fn test_fhir_bundle() {
    let reading = SensorReading::new(250, 550, 3000, 720);
    let bundle = to_fhir_bundle(&reading, "Patient/test").unwrap();

    assert_eq!(bundle.resource_type, "Bundle");
    assert_eq!(bundle.bundle_type, "collection");
    assert_eq!(bundle.total, 4);
    assert_eq!(bundle.entry.len(), 4);
}

#[test]
fn test_observation_disclaimer() {
    let reading = SensorReading::new(250, 550, 3000, 720);
    let obs =
        to_fhir_observation(&reading, ObservationType::Temperature, "Patient/test").unwrap();

    let note = obs.note.unwrap();
    assert!(!note.is_empty());
    assert!(note[0].text.contains("NOT perform diagnosis"));
}

#[test]
fn observation_id_is_reading_id_and_suffix() {
    let reading = reading_with(123, 0);
    let obs =
        to_fhir_observation(&reading, ObservationType::Temperature, "Patient/test").unwrap();
    assert_eq!(obs.id, "123_temperature");
    let obs = to_fhir_observation(&reading, ObservationType::SoundLevel, "Patient/test").unwrap();
    assert_eq!(obs.id, "123_soundlevel");
}

#[test]
fn effective_time_is_rendered_from_capture_time() {
    let reading = reading_with(1, 0);
    let obs =
        to_fhir_observation(&reading, ObservationType::Humidity, "Patient/test").unwrap();
    assert_eq!(obs.effective_date_time, "1970-01-01T00:00:00+00:00");

    let reading = reading_with(1, 947_638_923_004);
    let obs =
        to_fhir_observation(&reading, ObservationType::Humidity, "Patient/test").unwrap();
    assert_eq!(obs.effective_date_time, "2000-01-12T01:02:03.004+00:00");
}

#[test]
fn unrenderable_timestamp_is_a_conversion_error() {
    let reading = reading_with(1, i64::MAX);
    let result = to_fhir_observation(&reading, ObservationType::Temperature, "Patient/test");
    assert!(matches!(result, Err(AppError::FhirError(_))));
}

#[test]
fn bundle_entries_cover_all_channels_in_order() {
    let reading = reading_with(9, 0);
    let bundle = to_fhir_bundle(&reading, "Patient/p").unwrap();
    assert_eq!(bundle.entry[0].resource.value_quantity.value, 255);
    assert_eq!(bundle.entry[1].resource.value_quantity.value, 550);
    assert_eq!(bundle.entry[2].resource.value_quantity.value, 3000);
    assert_eq!(bundle.entry[3].resource.value_quantity.value, 720);
    assert_eq!(bundle.entry[0].full_url, "urn:uuid:9_temperature");
    assert_eq!(bundle.entry[0].resource.subject.reference, "Patient/p");
    assert_eq!(bundle.id.len(), 36);
}

#[test]
fn combined_bundle_groups_four_entries_per_reading() {
    let first = reading_with(1, 0);
    let second = reading_with(2, 1000);
    let readings = vec![&second, &first];
    let bundle = to_fhir_combined_bundle(&readings, "Patient/test").unwrap();
    assert_eq!(bundle.total, 8);
    assert_eq!(bundle.entry.len(), 8);
    assert_eq!(bundle.entry[0].resource.id, "2_temperature");
    assert_eq!(bundle.entry[3].resource.id, "2_heartrate");
    assert_eq!(bundle.entry[4].resource.id, "1_temperature");
    assert_eq!(bundle.bundle_type, "collection");

    let empty: Vec<&esms_backend::models::SensorReading> = Vec::new();
    let bundle = to_fhir_combined_bundle(&empty, "Patient/test").unwrap();
    assert_eq!(bundle.total, 0);
    assert!(bundle.entry.is_empty());
}

#[test]
fn observation_type_names_resolve_like_the_route() {
    assert!(matches!(
        ObservationType::from_name("temperature"),
        Some(ObservationType::Temperature)
    ));
    assert!(matches!(ObservationType::from_name("sound"), Some(ObservationType::SoundLevel)));
    assert!(matches!(
        ObservationType::from_name("soundlevel"),
        Some(ObservationType::SoundLevel)
    ));
    assert!(matches!(ObservationType::from_name("hr"), Some(ObservationType::HeartRate)));
    assert!(matches!(
        ObservationType::from_name("heart_rate"),
        Some(ObservationType::HeartRate)
    ));
    assert!(ObservationType::from_name("pressure").is_none());
    assert!(ObservationType::from_name("Temperature").is_none());
}

#[test]
fn reference_ranges_and_categories_follow_the_type() {
    let reading = reading_with(2, 0);
    let obs = to_fhir_observation(&reading, ObservationType::SoundLevel, "Patient/test").unwrap();
    assert_eq!(obs.category[0].coding[0].code, "survey");
    let ranges = obs.reference_range.unwrap();
    assert_eq!(ranges.len(), 1);
    assert!(ranges[0].low.is_none());
    assert_eq!(ranges[0].high.as_ref().unwrap().value, 4000);

    let obs = to_fhir_observation(&reading, ObservationType::Temperature, "Patient/test").unwrap();
    assert_eq!(obs.category[0].coding[0].code, "vital-signs");
    let ranges = obs.reference_range.unwrap();
    assert_eq!(ranges[0].low.as_ref().unwrap().value, 180);
    assert_eq!(ranges[0].high.as_ref().unwrap().value, 260);
    assert_eq!(obs.device.unwrap().reference, "device/esms-sensor-temperature");
}
