//! FHIR R4 compliance module: converts sensor readings to Observation
//! resources for healthcare interoperability.
//!
//! LOINC code mappings:
//! - Temperature: 8310-5 (Body temperature)
//! - Humidity: custom environmental code (no standard LOINC)
//! - Sound level: custom acoustic stress code (no standard LOINC)
//! - Heart rate: 8867-4 (Heart rate)
//!
//! Quantity values carry the tenths fixed-point representation used by
//! `SensorReading`.

use vstd::prelude::*;
use vstd::string::StringExecFns;

use crate::error::AppError;
use crate::models::SensorReading;
use crate::sys;

verus! {

/// The decimal digit character for a value below ten.
pub open spec fn spec_digit_char(d: int) -> char {
    ((48 + d) as u8) as char
}

/// The decimal rendering of a non-negative integer, most significant
/// digit first.
pub open spec fn spec_decimal_digits(n: nat) -> Seq<char>
    decreases n,
{
    if n < 10 {
        seq![spec_digit_char(n as int)]
    } else {
        spec_decimal_digits(n / 10).push(spec_digit_char((n % 10) as int))
    }
}

/// The one-character string for a decimal digit.
fn digit_str(d: u8) -> (r: &'static str)
    requires
        d < 10,
    ensures
        r@ == seq![spec_digit_char(d as int)],
{
    proof {
        reveal_strlit("0");
        reveal_strlit("1");
        reveal_strlit("2");
        reveal_strlit("3");
        reveal_strlit("4");
        reveal_strlit("5");
        reveal_strlit("6");
        reveal_strlit("7");
        reveal_strlit("8");
        reveal_strlit("9");
    }
    let r = match d {
        0 => "0",
        1 => "1",
        2 => "2",
        3 => "3",
        4 => "4",
        5 => "5",
        6 => "6",
        7 => "7",
        8 => "8",
        _ => "9",
    };
    proof {
        assert(r@ =~= seq![spec_digit_char(d as int)]);
    }
    r
}

/// Render an identifier as decimal digits.
fn dec_u128(n: u128) -> (r: String)
    ensures
        r@ == spec_decimal_digits(n as nat),
    decreases n,
{
    if n < 10 {
        digit_str(n as u8).to_owned()
    } else {
        proof {
            vstd::arithmetic::div_mod::lemma_div_decreases(n as int, 10);
        }
        let mut s = dec_u128(n / 10);
        s.append(digit_str((n % 10) as u8));
        proof {
            assert(s@ =~= spec_decimal_digits((n as nat) / 10).push(
                spec_digit_char(((n as nat) % 10) as int),
            ));
        }
        s
    }
}

/// Type of observation being converted.
#[derive(Debug, Clone, Copy, PartialEq, Eq, Structural)]
pub enum ObservationType {
    Temperature,
    Humidity,
    SoundLevel,
    HeartRate,
}

/// The coding code of each observation type.
pub open spec fn spec_loinc_code(t: ObservationType) -> Seq<char> {
    match t {
        ObservationType::Temperature => "8310-5"@,
        ObservationType::Humidity => "ESMS-ENV-001"@,
        ObservationType::SoundLevel => "ESMS-ENV-002"@,
        ObservationType::HeartRate => "8867-4"@,
    }
}

/// The display name of each observation type.
pub open spec fn spec_display_name(t: ObservationType) -> Seq<char> {
    match t {
        ObservationType::Temperature => "Body temperature"@,
        ObservationType::Humidity => "Environmental humidity"@,
        ObservationType::SoundLevel => "Ambient sound level"@,
        ObservationType::HeartRate => "Heart rate"@,
    }
}

/// The coding system of each observation type: LOINC for the vital
/// signs, the local code system for the environmental channels.
pub open spec fn spec_coding_system(t: ObservationType) -> Seq<char> {
    match t {
        ObservationType::Temperature => "http://loinc.org"@,
        ObservationType::HeartRate => "http://loinc.org"@,
        ObservationType::Humidity => "http://esms.local/fhir/CodeSystem/environmental"@,
        ObservationType::SoundLevel => "http://esms.local/fhir/CodeSystem/environmental"@,
    }
}

/// The unit code of each observation type.
pub open spec fn spec_unit_code(t: ObservationType) -> Seq<char> {
    match t {
        ObservationType::Temperature => "Cel"@,
        ObservationType::Humidity => "%"@,
        ObservationType::SoundLevel => "1"@,
        ObservationType::HeartRate => "/min"@,
    }
}

/// The unit display text of each observation type.
pub open spec fn spec_unit_display(t: ObservationType) -> Seq<char> {
    match t {
        ObservationType::Temperature => "째C"@,
        ObservationType::Humidity => "%"@,
        ObservationType::SoundLevel => "units"@,
        ObservationType::HeartRate => "beats/minute"@,
    }
}

/// The category of each observation type.
pub open spec fn spec_category(t: ObservationType) -> Seq<char> {
    match t {
        ObservationType::Temperature => "vital-signs"@,
        ObservationType::HeartRate => "vital-signs"@,
        ObservationType::Humidity => "survey"@,
        ObservationType::SoundLevel => "survey"@,
    }
}

/// The lower-case identifier suffix of each observation type.
pub open spec fn spec_type_suffix(t: ObservationType) -> Seq<char> {
    match t {
        ObservationType::Temperature => "temperature"@,
        ObservationType::Humidity => "humidity"@,
        ObservationType::SoundLevel => "soundlevel"@,
        ObservationType::HeartRate => "heartrate"@,
    }
}

/// The observation type a lower-case request name resolves to, if any.
pub open spec fn spec_type_of_name(name: Seq<char>) -> Option<ObservationType> {
    if name == "temperature"@ {
        Some(ObservationType::Temperature)
    } else if name == "humidity"@ {
        Some(ObservationType::Humidity)
    } else if name == "sound"@ || name == "soundlevel"@ {
        Some(ObservationType::SoundLevel)
    } else if name == "heartrate"@ || name == "heart_rate"@ || name == "hr"@ {
        Some(ObservationType::HeartRate)
    } else {
        None
    }
}

/// The channel of the reading that an observation type reports.
pub open spec fn spec_channel_value(reading: SensorReading, t: ObservationType) -> i64 {
    match t {
        ObservationType::Temperature => reading.temperature,
        ObservationType::Humidity => reading.humidity,
        ObservationType::SoundLevel => reading.sound,
        ObservationType::HeartRate => reading.heart_rate,
    }
}

/// The logical identifier of the observation built for a reading: the
/// reading identifier in decimal, an underscore, and the type suffix.
pub open spec fn spec_observation_id(reading_id: u128, t: ObservationType) -> Seq<char> {
    spec_decimal_digits(reading_id as nat) + "_"@ + spec_type_suffix(t)
}

impl ObservationType {
    /// The coding code of this observation type.
    pub fn loinc_code(&self) -> (r: &'static str)
        ensures
            r@ == spec_loinc_code(*self),
    {
        match self {
            ObservationType::Temperature => "8310-5",
            ObservationType::Humidity => "ESMS-ENV-001",
            ObservationType::SoundLevel => "ESMS-ENV-002",
            ObservationType::HeartRate => "8867-4",
        }
    }

    /// The display name of this observation type.
    pub fn display_name(&self) -> (r: &'static str)
        ensures
            r@ == spec_display_name(*self),
    {
        match self {
            ObservationType::Temperature => "Body temperature",
            ObservationType::Humidity => "Environmental humidity",
            ObservationType::SoundLevel => "Ambient sound level",
            ObservationType::HeartRate => "Heart rate",
        }
    }

    /// The coding system URL of this observation type.
    pub fn coding_system(&self) -> (r: &'static str)
        ensures
            r@ == spec_coding_system(*self),
    {
        match self {
            ObservationType::Temperature | ObservationType::HeartRate => "http://loinc.org",
            ObservationType::Humidity | ObservationType::SoundLevel => "http://esms.local/fhir/CodeSystem/environmental",
        }
    }

    /// The unit code and unit display text of this observation type.
    pub fn unit(&self) -> (r: (&'static str, &'static str))
        ensures
            r.0@ == spec_unit_code(*self),
            r.1@ == spec_unit_display(*self),
    {
        match self {
            ObservationType::Temperature => ("Cel", "째C"),
            ObservationType::Humidity => ("%", "%"),
            ObservationType::SoundLevel => ("1", "units"),
            ObservationType::HeartRate => ("/min", "beats/minute"),
        }
    }

    /// The category of this observation type.
    pub fn category(&self) -> (r: &'static str)
        ensures
            r@ == spec_category(*self),
    {
        match self {
            ObservationType::Temperature | ObservationType::HeartRate => "vital-signs",
            ObservationType::Humidity | ObservationType::SoundLevel => "survey",
        }
    }

    /// Resolve a lower-case request name to an observation type:
    /// "temperature", "humidity", "sound" or "soundlevel", and
    /// "heartrate", "heart_rate" or "hr" are accepted; anything else is
    /// unknown.
    pub fn from_name(name: &str) -> (r: Option<ObservationType>)
        ensures
            r == spec_type_of_name(name@),
    {
        proof {
            reveal_strlit("temperature");
            reveal_strlit("humidity");
            reveal_strlit("sound");
            reveal_strlit("soundlevel");
            reveal_strlit("heartrate");
            reveal_strlit("heart_rate");
            reveal_strlit("hr");
        }
        if sys::str_eq(name, "temperature") {
            Some(ObservationType::Temperature)
        } else if sys::str_eq(name, "humidity") {
            Some(ObservationType::Humidity)
        } else if sys::str_eq(name, "sound") || sys::str_eq(name, "soundlevel") {
            Some(ObservationType::SoundLevel)
        } else if sys::str_eq(name, "heartrate") || sys::str_eq(name, "heart_rate")
            || sys::str_eq(name, "hr") {
            Some(ObservationType::HeartRate)
        } else {
            None
        }
    }

    /// The lower-case identifier suffix of this observation type.
    pub fn type_suffix(&self) -> (r: &'static str)
        ensures
            r@ == spec_type_suffix(*self),
    {
        match self {
            ObservationType::Temperature => "temperature",
            ObservationType::Humidity => "humidity",
            ObservationType::SoundLevel => "soundlevel",
            ObservationType::HeartRate => "heartrate",
        }
    }
}

/// FHIR resource metadata.
#[derive(Debug, Clone)]
pub struct FhirMeta {
    pub version_id: String,
    pub last_updated: String,
    pub profile: Vec<String>,
}

/// FHIR codeable concept.
#[derive(Debug, Clone)]
pub struct FhirCodeableConcept {
    pub coding: Vec<FhirCoding>,
    pub text: Option<String>,
}

/// FHIR coding element.
#[derive(Debug, Clone)]
pub struct FhirCoding {
    pub system: String,
    pub code: String,
    pub display: Option<String>,
}

/// FHIR reference to another resource.
#[derive(Debug, Clone)]
pub struct FhirReference {
    pub reference: String,
    pub display: Option<String>,
}

/// FHIR quantity value, in tenths of the unit.
#[derive(Debug, Clone)]
pub struct FhirQuantity {
    /// The measured value, tenths of the unit.
    pub value: i64,
    pub unit: String,
    pub system: String,
    pub code: String,
}

/// FHIR reference range.
#[derive(Debug, Clone)]
pub struct FhirReferenceRange {
    pub low: Option<FhirQuantity>,
    pub high: Option<FhirQuantity>,
    pub text: Option<String>,
}

/// FHIR annotation (note).
#[derive(Debug, Clone)]
pub struct FhirAnnotation {
    pub text: String,
    pub time: String,
}

/// FHIR R4 Observation resource.
#[derive(Debug, Clone)]
pub struct FhirObservation {
    /// Resource type (always "Observation").
    pub resource_type: String,
    /// Logical ID of the resource.
    pub id: String,
    /// Metadata about the resource.
    pub meta: FhirMeta,
    /// Observation status.
    pub status: String,
    /// Category of the observation.
    pub category: Vec<FhirCodeableConcept>,
    /// Code describing what was observed.
    pub code: FhirCodeableConcept,
    /// Subject of the observation (patient reference).
    pub subject: FhirReference,
    /// Time of the observation, RFC 3339.
    pub effective_date_time: String,
    /// Time the observation was recorded, RFC 3339.
    pub issued: String,
    /// The observed value.
    pub value_quantity: FhirQuantity,
    /// Interpretation of the result.
    pub interpretation: Option<Vec<FhirCodeableConcept>>,
    /// Reference range for the observation.
    pub reference_range: Option<Vec<FhirReferenceRange>>,
    /// Device that made the observation.
    pub device: Option<FhirReference>,
    /// Additional notes.
    pub note: Option<Vec<FhirAnnotation>>,
}

/// A quantity with the given value (tenths), unit text and unit code, in
/// the unit-of-measure system.
pub open spec fn spec_ucum_quantity(q: FhirQuantity, value: i64, unit: Seq<char>, code: Seq<
    char,
>) -> bool {
    &&& q.value == value
    &&& q.unit@ == unit
    &&& q.system@ == "http://unitsofmeasure.org"@
    &&& q.code@ == code
}

/// The comfort reference range published with each observation type:
/// 18.0 to 26.0 degrees, 30.0 to 60.0 percent humidity, 60 to 100 beats
/// per minute, and at most 400 sound units (all values in tenths).
pub open spec fn spec_reference_range_ok(
    t: ObservationType,
    rr: Option<Vec<FhirReferenceRange>>,
) -> bool {
    &&& rr matches Some(v) && v@.len() == 1
    &&& rr matches Some(v) ==> {
        let e = v@[0];
        match t {
            ObservationType::Temperature => {
                &&& e.low matches Some(q) && spec_ucum_quantity(q, 180, "째C"@, "Cel"@)
                &&& e.high matches Some(q) && spec_ucum_quantity(q, 260, "째C"@, "Cel"@)
                &&& e.text matches Some(s) && s@ == "Comfortable room temperature range"@
            },
            ObservationType::Humidity => {
                &&& e.low matches Some(q) && spec_ucum_quantity(q, 300, "%"@, "%"@)
                &&& e.high matches Some(q) && spec_ucum_quantity(q, 600, "%"@, "%"@)
                &&& e.text matches Some(s) && s@ == "Comfortable humidity range"@
            },
            ObservationType::HeartRate => {
                &&& e.low matches Some(q) && spec_ucum_quantity(q, 600, "beats/minute"@, "/min"@)
                &&& e.high matches Some(q) && spec_ucum_quantity(q, 1000, "beats/minute"@, "/min"@)
                &&& e.text matches Some(s) && s@ == "Normal resting heart rate range"@
            },
            ObservationType::SoundLevel => {
                &&& e.low is None
                &&& e.high matches Some(q) && spec_ucum_quantity(q, 4000, "units"@, "1"@)
                &&& e.text matches Some(s) && s@ == "Comfortable ambient noise level"@
            },
        }
    }
}

/// The device display text of each observation type.
pub open spec fn spec_device_display(t: ObservationType) -> Seq<char> {
    match t {
        ObservationType::Temperature => "DHT11 Temperature and Humidity Sensor"@,
        ObservationType::Humidity => "DHT11 Temperature and Humidity Sensor"@,
        ObservationType::SoundLevel => "Sound Level Sensor Module"@,
        ObservationType::HeartRate => "MAX30100 Pulse Oximeter and Heart Rate Sensor"@,
    }
}

fn ucum_quantity(value: i64, unit: &str, code: &str) -> (q: FhirQuantity)
    ensures
        spec_ucum_quantity(q, value, unit@, code@),
{
    FhirQuantity {
        value,
        unit: unit.to_owned(),
        system: "http://unitsofmeasure.org".to_owned(),
        code: code.to_owned(),
    }
}

/// The comfort reference range published with an observation type.
fn get_reference_range(obs_type: ObservationType) -> (r: Option<Vec<FhirReferenceRange>>)
    ensures
        spec_reference_range_ok(obs_type, r),
{
    let entry = match obs_type {
        ObservationType::Temperature => FhirReferenceRange {
            low: Some(ucum_quantity(180, "째C", "Cel")),
            high: Some(ucum_quantity(260, "째C", "Cel")),
            text: Some("Comfortable room temperature range".to_owned()),
        },
        ObservationType::Humidity => FhirReferenceRange {
            low: Some(ucum_quantity(300, "%", "%")),
            high: Some(ucum_quantity(600, "%", "%")),
            text: Some("Comfortable humidity range".to_owned()),
        },
        ObservationType::HeartRate => FhirReferenceRange {
            low: Some(ucum_quantity(600, "beats/minute", "/min")),
            high: Some(ucum_quantity(1000, "beats/minute", "/min")),
            text: Some("Normal resting heart rate range".to_owned()),
        },
        ObservationType::SoundLevel => FhirReferenceRange {
            low: None,
            high: Some(ucum_quantity(4000, "units", "1")),
            text: Some("Comfortable ambient noise level".to_owned()),
        },
    };
    let mut v: Vec<FhirReferenceRange> = Vec::new();
    v.push(entry);
    Some(v)
}

/// The display text of the device behind an observation type.
pub fn get_device_display(obs_type: ObservationType) -> (r: String)
    ensures
        r@ == spec_device_display(obs_type),
{
    match obs_type {
        ObservationType::Temperature | ObservationType::Humidity => {
            "DHT11 Temperature and Humidity Sensor".to_owned()
        },
        ObservationType::SoundLevel => "Sound Level Sensor Module".to_owned(),
        ObservationType::HeartRate => "MAX30100 Pulse Oximeter and Heart Rate Sensor".to_owned(),
    }
}

/// Whether an observation faithfully reports a reading: every field of
/// the resource is pinned to the reading, the observation type and the
/// patient reference, with the given effective and issued timestamps.
pub open spec fn spec_observation_ok(
    obs: FhirObservation,
    reading: SensorReading,
    t: ObservationType,
    patient_reference: Seq<char>,
    effective: Seq<char>,
    issued: Seq<char>,
) -> bool {
    &&& obs.resource_type@ == "Observation"@
    &&& obs.id@ == spec_observation_id(reading.id, t)
    &&& obs.meta.version_id@ == "1"@
    &&& obs.meta.last_updated@ == issued
    &&& obs.meta.profile@.len() == 1 && obs.meta.profile@[0]@
        == "http://hl7.org/fhir/StructureDefinition/Observation"@
    &&& obs.status@ == "final"@
    &&& obs.category@.len() == 1 && obs.category@[0].coding@.len() == 1 && {
        let c = obs.category@[0].coding@[0];
        &&& c.system@ == "http://terminology.hl7.org/CodeSystem/observation-category"@
        &&& c.code@ == spec_category(t)
        &&& c.display matches Some(d) && d@ == spec_category(t)
    } && obs.category@[0].text is None
    &&& obs.code.coding@.len() == 1 && {
        let c = obs.code.coding@[0];
        &&& c.system@ == spec_coding_system(t)
        &&& c.code@ == spec_loinc_code(t)
        &&& c.display matches Some(d) && d@ == spec_display_name(t)
    } && (obs.code.text matches Some(s) && s@ == spec_display_name(t))
    &&& obs.subject.reference@ == patient_reference
    &&& obs.subject.display matches Some(d) && d@ == "ESMS Monitoring Subject"@
    &&& obs.effective_date_time@ == effective
    &&& obs.issued@ == issued
    &&& spec_ucum_quantity(
        obs.value_quantity,
        spec_channel_value(reading, t),
        spec_unit_display(t),
        spec_unit_code(t),
    )
    &&& obs.interpretation is None
    &&& spec_reference_range_ok(t, obs.reference_range)
    &&& obs.device matches Some(d) && d.reference@ == "device/esms-sensor-"@ + spec_type_suffix(t)
        && (d.display matches Some(s) && s@ == spec_device_display(t))
    &&& obs.note matches Some(n) && n@.len() == 1 && n@[0].text@ == spec_disclaimer() && n@[0].time@
        == issued
}

/// The non-diagnostic disclaimer attached to every observation.
pub open spec fn spec_disclaimer() -> Seq<char> {
    "This observation is from the Environmental Stress Monitoring System. It identifies environmental and physiological conditions that correlate with stress and discomfort. It does NOT perform diagnosis and is intended as an early-warning monitoring tool."@
}

/// Build the observation resource for one channel of a reading, with the
/// effective and issued times already rendered. This is the fully
/// specified core of the conversion: every field of the result is pinned
/// down.
pub fn build_observation(
    reading: &SensorReading,
    obs_type: ObservationType,
    patient_reference: &str,
    effective: String,
    issued: String,
) -> (obs: FhirObservation)
    ensures
        spec_observation_ok(
            obs,
            *reading,
            obs_type,
            patient_reference@,
            effective@,
            issued@,
        ),
{
    let mut observation_id = dec_u128(reading.id);
    observation_id.append("_");
    observation_id.append(obs_type.type_suffix());

    let mut device_reference = "device/esms-sensor-".to_owned();
    device_reference.append(obs_type.type_suffix());

    let value = match obs_type {
        ObservationType::Temperature => reading.temperature,
        ObservationType::Humidity => reading.humidity,
        ObservationType::SoundLevel => reading.sound,
        ObservationType::HeartRate => reading.heart_rate,
    };
    let (unit_code, unit_display) = obs_type.unit();

    let mut profile: Vec<String> = Vec::new();
    profile.push("http://hl7.org/fhir/StructureDefinition/Observation".to_owned());

    let mut category_coding: Vec<FhirCoding> = Vec::new();
    category_coding.push(
        FhirCoding {
            system: "http://terminology.hl7.org/CodeSystem/observation-category".to_owned(),
            code: obs_type.category().to_owned(),
            display: Some(obs_type.category().to_owned()),
        },
    );
    let mut category: Vec<FhirCodeableConcept> = Vec::new();
    category.push(FhirCodeableConcept { coding: category_coding, text: None });

    let mut code_coding: Vec<FhirCoding> = Vec::new();
    code_coding.push(
        FhirCoding {
            system: obs_type.coding_system().to_owned(),
            code: obs_type.loinc_code().to_owned(),
            display: Some(obs_type.display_name().to_owned()),
        },
    );

    let mut note: Vec<FhirAnnotation> = Vec::new();
    note.push(
        FhirAnnotation {
            text: "This observation is from the Environmental Stress Monitoring System. It identifies environmental and physiological conditions that correlate with stress and discomfort. It does NOT perform diagnosis and is intended as an early-warning monitoring tool.".to_owned(),
            time: issued.clone(),
        },
    );

    FhirObservation {
        resource_type: "Observation".to_owned(),
        id: observation_id,
        meta: FhirMeta {
            version_id: "1".to_owned(),
            last_updated: issued.clone(),
            profile,
        },
        status: "final".to_owned(),
        category,
        code: FhirCodeableConcept {
            coding: code_coding,
            text: Some(obs_type.display_name().to_owned()),
        },
        subject: FhirReference {
            reference: patient_reference.to_owned(),
            display: Some("ESMS Monitoring Subject".to_owned()),
        },
        effective_date_time: effective,
        issued: issued.clone(),
        value_quantity: FhirQuantity {
            value,
            unit: unit_display.to_owned(),
            system: "http://unitsofmeasure.org".to_owned(),
            code: unit_code.to_owned(),
        },
        interpretation: None,
        reference_range: get_reference_range(obs_type),
        device: Some(
            FhirReference { reference: device_reference, display: Some(get_device_display(obs_type)) },
        ),
        note: Some(note),
    }
}

/// Convert a sensor reading to a FHIR Observation for one channel. The
/// effective time is the reading's capture time and the issued time is
/// the current wall clock, both rendered as RFC 3339; a timestamp that
/// cannot be rendered is a conversion error.
pub fn to_fhir_observation(
    reading: &SensorReading,
    obs_type: ObservationType,
    patient_reference: &str,
) -> (r: Result<FhirObservation, AppError>)
    ensures
        r matches Ok(obs) ==> exists|now: int|
            spec_observation_ok(
                obs,
                *reading,
                obs_type,
                patient_reference@,
                sys::rfc3339_of(reading.timestamp as int),
                #[trigger] sys::rfc3339_of(now),
            ),
        r matches Err(e) ==> e is FhirError,
    {
    let effective = match sys::rfc3339_millis(reading.timestamp) {
        Some(s) => s,
        None => {
            return Err(
                AppError::FhirError("Reading timestamp cannot be rendered".to_owned()),
            );
        },
    };
    let clock = sys::now_millis();
    let issued = match sys::rfc3339_millis(clock) {
        Some(s) => s,
        None => {
            return Err(AppError::FhirError("Clock reading cannot be rendered".to_owned()));
        },
    };
    let obs = build_observation(reading, obs_type, patient_reference, effective, issued);
    proof {
        assert(spec_observation_ok(
            obs,
            *reading,
            obs_type,
            patient_reference@,
            sys::rfc3339_of(reading.timestamp as int),
            sys::rfc3339_of(clock as int),
        ));
    }
    Ok(obs)
}

/// FHIR Bundle resource.
#[derive(Debug, Clone)]
pub struct FhirBundle {
    pub resource_type: String,
    pub id: String,
    pub bundle_type: String,
    pub timestamp: String,
    pub total: u32,
    pub entry: Vec<FhirBundleEntry>,
}

/// FHIR Bundle entry.
#[derive(Debug, Clone)]
pub struct FhirBundleEntry {
    pub full_url: String,
    pub resource: FhirObservation,
}

/// The entry wraps the observation under a "urn:uuid:" URL.
pub open spec fn spec_bundle_entry_ok(e: FhirBundleEntry, obs: FhirObservation) -> bool {
    &&& e.resource == obs
    &&& e.full_url@ == "urn:uuid:"@ + obs.id@
}

fn bundle_entry(obs: FhirObservation) -> (e: FhirBundleEntry)
    ensures
        spec_bundle_entry_ok(e, obs),
{
    let mut full_url = "urn:uuid:".to_owned();
    full_url.append(obs.id.as_str());
    FhirBundleEntry { full_url, resource: obs }
}

/// Convert a sensor reading to a collection Bundle holding one
/// Observation per channel, in the order temperature, humidity, sound
/// level, heart rate.
pub fn to_fhir_bundle(reading: &SensorReading, patient_reference: &str) -> (r: Result<
    FhirBundle,
    AppError,
>)
    ensures
        r matches Ok(b) ==> {
            &&& b.resource_type@ == "Bundle"@
            &&& b.bundle_type@ == "collection"@
            &&& b.id@.len() == 36
            &&& b.total == 4
            &&& b.entry@.len() == 4
            &&& exists|now: int|
                spec_bundle_reports(b, *reading, patient_reference@, #[trigger] sys::rfc3339_of(now))
        },
        r matches Err(e) ==> e is FhirError,
    {
    let effective = match sys::rfc3339_millis(reading.timestamp) {
        Some(s) => s,
        None => {
            return Err(
                AppError::FhirError("Reading timestamp cannot be rendered".to_owned()),
            );
        },
    };
    let now = sys::now_millis();
    let issued = match sys::rfc3339_millis(now) {
        Some(s) => s,
        None => {
            return Err(AppError::FhirError("Clock reading cannot be rendered".to_owned()));
        },
    };
    let mut entry: Vec<FhirBundleEntry> = Vec::new();
    entry.push(
        bundle_entry(
            build_observation(
                reading,
                ObservationType::Temperature,
                patient_reference,
                effective.clone(),
                issued.clone(),
            ),
        ),
    );
    entry.push(
        bundle_entry(
            build_observation(
                reading,
                ObservationType::Humidity,
                patient_reference,
                effective.clone(),
                issued.clone(),
            ),
        ),
    );
    entry.push(
        bundle_entry(
            build_observation(
                reading,
                ObservationType::SoundLevel,
                patient_reference,
                effective.clone(),
                issued.clone(),
            ),
        ),
    );
    entry.push(
        bundle_entry(
            build_observation(
                reading,
                ObservationType::HeartRate,
                patient_reference,
                effective.clone(),
                issued.clone(),
            ),
        ),
    );
    let ghost issued_view = issued@;
    let bundle = FhirBundle {
        resource_type: "Bundle".to_owned(),
        id: sys::fresh_uuid_string(),
        bundle_type: "collection".to_owned(),
        timestamp: issued,
        total: 4,
        entry,
    };
    proof {
        assert(issued_view == sys::rfc3339_of(now as int));
        assert(spec_bundle_reports(bundle, *reading, patient_reference@, sys::rfc3339_of(now as int)));
    }
    Ok(bundle)
}

/// Entries `at .. at + 4` of an entry list report the four channels of
/// `reading`, in the order temperature, humidity, sound level, heart
/// rate, each under its observation's URL, with the reading's capture
/// time as the effective time.
pub open spec fn spec_bundle_group_ok(
    entries: Seq<FhirBundleEntry>,
    at: int,
    reading: SensorReading,
    patient_reference: Seq<char>,
    issued: Seq<char>,
) -> bool {
    &&& 0 <= at && at + 4 <= entries.len()
    &&& spec_bundle_entry_ok(entries[at], entries[at].resource) && spec_observation_ok(
        entries[at].resource,
        reading,
        ObservationType::Temperature,
        patient_reference,
        sys::rfc3339_of(reading.timestamp as int),
        issued,
    )
    &&& spec_bundle_entry_ok(entries[at + 1], entries[at + 1].resource) && spec_observation_ok(
        entries[at + 1].resource,
        reading,
        ObservationType::Humidity,
        patient_reference,
        sys::rfc3339_of(reading.timestamp as int),
        issued,
    )
    &&& spec_bundle_entry_ok(entries[at + 2], entries[at + 2].resource) && spec_observation_ok(
        entries[at + 2].resource,
        reading,
        ObservationType::SoundLevel,
        patient_reference,
        sys::rfc3339_of(reading.timestamp as int),
        issued,
    )
    &&& spec_bundle_entry_ok(entries[at + 3], entries[at + 3].resource) && spec_observation_ok(
        entries[at + 3].resource,
        reading,
        ObservationType::HeartRate,
        patient_reference,
        sys::rfc3339_of(reading.timestamp as int),
        issued,
    )
}

/// The four entries of a bundle report the reading's four channels.
pub open spec fn spec_bundle_reports(
    b: FhirBundle,
    reading: SensorReading,
    patient_reference: Seq<char>,
    issued: Seq<char>,
) -> bool {
    &&& b.entry@.len() == 4
    &&& spec_bundle_group_ok(b.entry@, 0, reading, patient_reference, issued)
}

/// Every reading of the list has its four-entry group, reading `j` at
/// entries `4j .. 4j + 4`.
pub open spec fn spec_all_groups_ok(
    entries: Seq<FhirBundleEntry>,
    readings: Seq<&SensorReading>,
    patient_reference: Seq<char>,
    issued: Seq<char>,
) -> bool {
    forall|j: int|
        0 <= j < readings.len() ==> spec_bundle_group_ok(
            entries,
            4 * j,
            *(#[trigger] readings[j]),
            patient_reference,
            issued,
        )
}

/// Convert several readings (most recent first, as `recent` returns
/// them) into one collection Bundle: four observations per reading, in
/// reading order.
pub fn to_fhir_combined_bundle(readings: &Vec<&SensorReading>, patient_reference: &str) -> (r:
    Result<FhirBundle, AppError>)
    ensures
        r matches Ok(b) ==> {
            &&& b.resource_type@ == "Bundle"@
            &&& b.bundle_type@ == "collection"@
            &&& b.id@.len() == 36
            &&& b.entry@.len() == 4 * readings@.len()
            &&& b.total == (if 4 * readings@.len() <= u32::MAX {
                4 * readings@.len() as int
            } else {
                u32::MAX as int
            })
            &&& exists|now: int|
                #[trigger] spec_all_groups_ok(
                    b.entry@,
                    readings@,
                    patient_reference@,
                    sys::rfc3339_of(now),
                )
        },
        r matches Err(e) ==> e is FhirError,
{
    let now = sys::now_millis();
    let issued = match sys::rfc3339_millis(now) {
        Some(s) => s,
        None => {
            return Err(AppError::FhirError("Clock reading cannot be rendered".to_owned()));
        },
    };
    let ghost issued_view = issued@;
    let n = readings.len();
    let mut entry: Vec<FhirBundleEntry> = Vec::new();
    let mut i: usize = 0;
    while i < n
        invariant
            n == readings@.len(),
            i <= n,
            entry@.len() == 4 * i,
            issued_view == issued@,
            spec_all_groups_ok(
                entry@,
                readings@.subrange(0, i as int),
                patient_reference@,
                issued_view,
            ),
        decreases n - i,
    {
        let reading = readings[i];
        let effective = match sys::rfc3339_millis(reading.timestamp) {
            Some(s) => s,
            None => {
                return Err(
                    AppError::FhirError("Reading timestamp cannot be rendered".to_owned()),
                );
            },
        };
        let ghost pre = entry@;
        entry.push(
            bundle_entry(
                build_observation(
                    reading,
                    ObservationType::Temperature,
                    patient_reference,
                    effective.clone(),
                    issued.clone(),
                ),
            ),
        );
        entry.push(
            bundle_entry(
                build_observation(
                    reading,
                    ObservationType::Humidity,
                    patient_reference,
                    effective.clone(),
                    issued.clone(),
                ),
            ),
        );
        entry.push(
            bundle_entry(
                build_observation(
                    reading,
                    ObservationType::SoundLevel,
                    patient_reference,
                    effective.clone(),
                    issued.clone(),
                ),
            ),
        );
        entry.push(
            bundle_entry(
                build_observation(
                    reading,
                    ObservationType::HeartRate,
                    patient_reference,
                    effective,
                    issued.clone(),
                ),
            ),
        );
        i = i + 1;
        proof {
            assert(forall|k: int| 0 <= k < pre.len() ==> entry@[k] == pre[k]);
            assert(spec_bundle_group_ok(
                entry@,
                4 * (i - 1),
                *readings@[i - 1],
                patient_reference@,
                issued_view,
            ));
            let done = readings@.subrange(0, i as int);
            assert forall|j: int| 0 <= j < done.len() implies spec_bundle_group_ok(
                entry@,
                4 * j,
                *(#[trigger] done[j]),
                patient_reference@,
                issued_view,
            ) by {
                assert(done[j] == readings@[j]);
                if j < i - 1 {
                    let prev = readings@.subrange(0, (i - 1) as int);
                    assert(prev[j] == readings@[j]);
                    assert(spec_bundle_group_ok(
                        pre,
                        4 * j,
                        *prev[j],
                        patient_reference@,
                        issued_view,
                    ));
                    assert(entry@[4 * j] == pre[4 * j]);
                    assert(entry@[4 * j + 1] == pre[4 * j + 1]);
                    assert(entry@[4 * j + 2] == pre[4 * j + 2]);
                    assert(entry@[4 * j + 3] == pre[4 * j + 3]);
                }
            }
        }
    }
    let count = entry.len();
    let total: u32 = if count <= u32::MAX as usize {
        count as u32
    } else {
        u32::MAX
    };
    let bundle = FhirBundle {
        resource_type: "Bundle".to_owned(),
        id: sys::fresh_uuid_string(),
        bundle_type: "collection".to_owned(),
        timestamp: issued,
        total,
        entry,
    };
    proof {
        assert(readings@.subrange(0, n as int) =~= readings@);
        assert(issued_view == sys::rfc3339_of(now as int));
        assert(spec_all_groups_ok(
            bundle.entry@,
            readings@,
            patient_reference@,
            sys::rfc3339_of(now as int),
        ));
        assert(exists|t: int|
            #[trigger] spec_all_groups_ok(
                bundle.entry@,
                readings@,
                patient_reference@,
                sys::rfc3339_of(t),
            ));
    }
    Ok(bundle)
}

} // verus!
