//! Configuration: the settings structure and the verified parsing of the
//! raw environment strings it is loaded from. Reading the environment
//! itself is the caller's job; it hands the raw strings to
//! `Settings::from_strings`.

use vstd::prelude::*;
use vstd::string::StrSliceExecFns;

use crate::sys;

verus! {

/// Configuration errors.
#[derive(Debug, Clone, Copy, PartialEq, Eq, Structural)]
pub enum SettingsError {
    /// A numeric or boolean environment variable did not parse.
    ParseError,
}

/// Server configuration settings.
#[derive(Debug, Clone)]
pub struct ServerSettings {
    pub host: String,
    pub port: u16,
}

/// Sensor configuration settings.
#[derive(Debug, Clone)]
pub struct SensorSettings {
    /// Interval in milliseconds between sensor readings.
    pub interval_ms: u64,
}

/// Healthcare-record export configuration settings.
#[derive(Debug, Clone)]
pub struct FhirSettings {
    /// Base URL for exported resources.
    pub base_url: String,
    /// Patient reference for observations.
    pub patient_reference: String,
}

/// Security configuration settings (token and TLS placeholders).
#[derive(Debug, Clone)]
pub struct SecuritySettings {
    pub jwt_secret: Option<String>,
    pub tls_enabled: bool,
}

/// Root configuration structure.
#[derive(Debug, Clone)]
pub struct Settings {
    pub server: ServerSettings,
    pub sensor: SensorSettings,
    pub fhir: FhirSettings,
    pub security: SecuritySettings,
}

/// The characters are all decimal digits and there is at least one.
pub open spec fn spec_is_digits(s: Seq<char>) -> bool {
    s.len() > 0 && forall|i: int| 0 <= i < s.len() ==> '0' <= #[trigger] s[i] <= '9'
}

/// The value of a sequence of decimal digits.
pub open spec fn spec_digits_value(s: Seq<char>) -> int
    decreases s.len(),
{
    if s.len() == 0 {
        0
    } else {
        spec_digits_value(s.drop_last()) * 10 + (s.last() as int - '0' as int)
    }
}

/// The numeric body of a string: the whole string, or what follows one
/// optional leading plus sign.
pub open spec fn spec_numeric_body(s: Seq<char>) -> Seq<char> {
    if s.len() > 0 && s[0] == '+' {
        s.subrange(1, s.len() as int)
    } else {
        s
    }
}

/// The string parses as an unsigned 64-bit decimal number: an optional
/// leading plus sign, then at least one digit, value in range.
pub open spec fn spec_parses_u64(s: Seq<char>) -> bool {
    spec_is_digits(spec_numeric_body(s)) && spec_digits_value(spec_numeric_body(s)) <= u64::MAX
}

/// The string parses as an unsigned 16-bit decimal number.
pub open spec fn spec_parses_u16(s: Seq<char>) -> bool {
    spec_is_digits(spec_numeric_body(s)) && spec_digits_value(spec_numeric_body(s)) <= u16::MAX
}

/// The string parses as a boolean.
pub open spec fn spec_parses_bool(s: Seq<char>) -> bool {
    s == "true"@ || s == "false"@
}

/// The value of a digit sequence never shrinks as digits are appended.
proof fn lemma_digits_value_monotonic(s: Seq<char>, i: int)
    requires
        spec_is_digits(s),
        0 <= i <= s.len(),
    ensures
        0 <= spec_digits_value(s.subrange(0, i)) <= spec_digits_value(s),
    decreases s.len() - i,
{
    if i == s.len() {
        assert(s.subrange(0, i) =~= s);
        lemma_digits_value_nonneg(s);
    } else {
        lemma_digits_value_monotonic(s, i + 1);
        let shorter = s.subrange(0, i);
        let longer = s.subrange(0, i + 1);
        assert(longer.drop_last() =~= shorter);
        assert(longer.last() == s[i]);
        lemma_digits_value_nonneg(shorter);
    }
}

/// The value of a digit sequence is non-negative.
proof fn lemma_digits_value_nonneg(s: Seq<char>)
    requires
        forall|i: int| 0 <= i < s.len() ==> '0' <= #[trigger] s[i] <= '9',
    ensures
        spec_digits_value(s) >= 0,
    decreases s.len(),
{
    if s.len() > 0 {
        assert(forall|i: int|
            0 <= i < s.drop_last().len() ==> '0' <= #[trigger] s.drop_last()[i] <= '9');
        lemma_digits_value_nonneg(s.drop_last());
    }
}

/// Parse an unsigned 64-bit decimal number: an optional leading plus
/// sign, then at least one digit; succeeds exactly when the value fits.
pub fn parse_u64(s: &str) -> (r: Option<u64>)
    ensures
        r is Some <==> spec_parses_u64(s@),
        r matches Some(v) ==> v == spec_digits_value(spec_numeric_body(s@)),
{
    let n = s.unicode_len();
    if n == 0 {
        return None;
    }
    let start: usize = if s.get_char(0) == '+' {
        1
    } else {
        0
    };
    if start == n {
        proof {
            assert(spec_numeric_body(s@).len() == 0);
        }
        return None;
    }
    let ghost body = spec_numeric_body(s@);
    proof {
        assert(body =~= s@.subrange(start as int, n as int));
    }
    let mut value: u64 = 0;
    let mut i: usize = start;
    while i < n
        invariant
            n == s@.len(),
            start <= i <= n,
            start < n,
            body == spec_numeric_body(s@),
            body =~= s@.subrange(start as int, n as int),
            body.len() == n - start,
            forall|j: int| 0 <= j < i - start ==> '0' <= #[trigger] body[j] <= '9',
            value == spec_digits_value(body.subrange(0, i - start)),
        decreases n - i,
    {
        let ghost prefix = body.subrange(0, i - start);
        let c = s.get_char(i);
        proof {
            assert(body[i - start] == s@[i as int]);
        }
        let code = c as u32;
        if code < 48 || code > 57 {
            return None;
        }
        let digit = (code - 48) as u64;
        if value > (u64::MAX - digit) / 10 {
            // The value up to here already overflows once extended by
            // this digit, and appending further digits can only grow it.
            proof {
                let next = body.subrange(0, i - start + 1);
                assert(next.drop_last() =~= prefix);
                assert(next.last() == body[i - start]);
                if spec_is_digits(body) {
                    lemma_digits_value_monotonic(body, i - start + 1);
                    vstd::arithmetic::div_mod::lemma_fundamental_div_mod(
                        (u64::MAX - digit) as int,
                        10,
                    );
                }
            }
            return None;
        }
        value = value * 10 + digit;
        i = i + 1;
        proof {
            let next = body.subrange(0, i - start);
            assert(next.drop_last() =~= prefix);
            assert(next.last() == body[i - 1 - start]);
        }
    }
    proof {
        assert(body.subrange(0, n - start) =~= body);
    }
    Some(value)
}

/// Parse an unsigned 16-bit decimal number: an optional leading plus
/// sign, then at least one digit; succeeds exactly when the value fits.
pub fn parse_u16(s: &str) -> (r: Option<u16>)
    ensures
        r is Some <==> spec_parses_u16(s@),
        r matches Some(v) ==> v == spec_digits_value(spec_numeric_body(s@)),
{
    match parse_u64(s) {
        None => None,
        Some(v) => {
            if v <= u16::MAX as u64 {
                Some(v as u16)
            } else {
                None
            }
        },
    }
}

/// Parse a boolean: exactly "true" or "false".
pub fn parse_bool(s: &str) -> (r: Option<bool>)
    ensures
        r is Some <==> spec_parses_bool(s@),
        r == Some(true) <==> s@ == "true"@,
        r == Some(false) <==> s@ == "false"@,
    {
    proof {
        reveal_strlit("true");
        reveal_strlit("false");
        assert("true"@.len() == 4);
        assert("false"@.len() == 5);
        assert("true"@ != "false"@);
    }
    if sys::str_eq(s, "true") {
        Some(true)
    } else if sys::str_eq(s, "false") {
        Some(false)
    } else {
        None
    }
}

impl Settings {
    /// Build the settings from the raw environment strings, applying the
    /// documented default for each missing variable: host "0.0.0.0",
    /// port 8080, a 1000 ms sensor interval, TLS off, and the stock
    /// export URL and patient reference. A present but unparseable
    /// numeric or boolean string is an error.
    pub fn from_strings(
        host: Option<String>,
        port: Option<&str>,
        interval_ms: Option<&str>,
        base_url: Option<String>,
        patient_reference: Option<String>,
        jwt_secret: Option<String>,
        tls_enabled: Option<&str>,
    ) -> (r: Result<Settings, SettingsError>)
        ensures
            r is Ok <==> {
                &&& (port matches Some(p) ==> spec_parses_u16(p@))
                &&& (interval_ms matches Some(s) ==> spec_parses_u64(s@))
                &&& (tls_enabled matches Some(t) ==> spec_parses_bool(t@))
            },
            r matches Ok(st) ==> {
                &&& st.server.port == (match port {
                    Some(p) => spec_digits_value(spec_numeric_body(p@)),
                    None => 8080int,
                })
                &&& st.server.host@ == (match host {
                    Some(h) => h@,
                    None => "0.0.0.0"@,
                })
                &&& st.sensor.interval_ms == (match interval_ms {
                    Some(s) => spec_digits_value(spec_numeric_body(s@)),
                    None => 1000int,
                })
                &&& st.fhir.base_url@ == (match base_url {
                    Some(u) => u@,
                    None => "http://localhost:8080/api/fhir"@,
                })
                &&& st.fhir.patient_reference@ == (match patient_reference {
                    Some(p) => p@,
                    None => "Patient/esms-monitor-subject"@,
                })
                &&& st.security.jwt_secret == jwt_secret
                &&& st.security.tls_enabled == (tls_enabled matches Some(t) && t@ == "true"@)
            },
            r matches Err(e) ==> e == SettingsError::ParseError,
    {
        let port_value: u16 = match port {
            Some(p) => match parse_u16(p) {
                Some(v) => v,
                None => { return Err(SettingsError::ParseError); },
            },
            None => 8080,
        };
        let interval_value: u64 = match interval_ms {
            Some(s) => match parse_u64(s) {
                Some(v) => v,
                None => { return Err(SettingsError::ParseError); },
            },
            None => 1000,
        };
        let tls_value: bool = match tls_enabled {
            Some(t) => match parse_bool(t) {
                Some(v) => v,
                None => { return Err(SettingsError::ParseError); },
            },
            None => false,
        };
        let host_value: String = match host {
            Some(h) => h,
            None => "0.0.0.0".to_owned(),
        };
        let base_url_value: String = match base_url {
            Some(u) => u,
            None => "http://localhost:8080/api/fhir".to_owned(),
        };
        let patient_value: String = match patient_reference {
            Some(p) => p,
            None => "Patient/esms-monitor-subject".to_owned(),
        };
        Ok(
            Settings {
                server: ServerSettings { host: host_value, port: port_value },
                sensor: SensorSettings { interval_ms: interval_value },
                fhir: FhirSettings {
                    base_url: base_url_value,
                    patient_reference: patient_value,
                },
                security: SecuritySettings { jwt_secret, tls_enabled: tls_value },
            },
        )
    }
}

} // verus!
