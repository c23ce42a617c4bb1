//! Pieces of configuration loading that do not touch files or the
//! environment: audit level names, flag words and range checks.

use vstd::prelude::*;

use crate::text::decimal_text;

verus! {

/// Declares `std::io::Error` for use in error values.
#[verifier::external_type_specification]
#[verifier::external_body]
pub struct ExIoError(std::io::Error);

/// Declares `toml::de::Error` for use in error values.
#[verifier::external_type_specification]
#[verifier::external_body]
pub struct ExTomlError(toml::de::Error);

/// How much detail audit records carry.
#[derive(Debug, Clone, Copy, PartialEq, Eq, Structural)]
pub enum AuditLevel {
    /// The final decision only.
    Minimal,
    /// Decision, agent, action and the main gate results.
    Standard,
    /// Every gate input and output.
    Detailed,
}

impl Default for AuditLevel {
    fn default() -> (r: Self)
        ensures
            r == AuditLevel::Standard,
    {
        AuditLevel::Standard
    }
}

/// Errors of configuration loading.
#[derive(Debug)]
#[allow(inconsistent_fields)]
pub enum ConfigError {
    /// A file could not be read.
    FileRead {
        /// The path given.
        path: String,
        /// What the system reported.
        source: std::io::Error,
    },
    /// A file was not valid TOML of the expected shape.
    TomlParse {
        /// What the parser reported.
        source: toml::de::Error,
    },
    /// A value could not be read as its field's type.
    ParseField {
        /// The field or variable.
        field: String,
        /// The text found.
        value: String,
        /// Why it was refused.
        reason: String,
    },
    /// A value is outside its field's range.
    InvalidRange {
        /// The field or variable.
        field: String,
        /// The text of the value.
        value: String,
        /// The range expected.
        reason: String,
    },
}

/// `c` with `A` to `Z` turned into `a` to `z`.
pub open spec fn ascii_lower_char(c: char) -> char {
    if 'A' <= c && c <= 'Z' {
        ((c as u32) + 32) as char
    } else {
        c
    }
}

/// `s` with ASCII capitals turned into small letters.
pub open spec fn ascii_lower(s: Seq<char>) -> Seq<char> {
    s.map_values(|c: char| ascii_lower_char(c))
}

/// What `str::trim` leaves of `s`.
pub uninterp spec fn trim_of(s: Seq<char>) -> Seq<char>;

/// Relies on `str::to_ascii_lowercase`: each ASCII capital becomes its small
/// letter, every other character stays.
#[verifier::external_body]
fn lowercase_ascii(s: &str) -> (r: String)
    ensures
        r@ == ascii_lower(s@),
{
    s.to_ascii_lowercase()
}

/// Relies on `str::trim`: `s` without leading and trailing white space.
#[verifier::external_body]
fn trim_text(s: &str) -> (r: &str)
    ensures
        r@ == trim_of(s@),
{
    s.trim()
}

/// Whether `s` holds exactly the text `lit`.
fn is_text(s: &String, lit: &str) -> (r: bool)
    ensures
        r == (s@ == lit@),
{
    *s == lit.to_owned()
}

/// Spelling of `level` in settings files.
pub open spec fn audit_level_name(level: AuditLevel) -> Seq<char> {
    match level {
        AuditLevel::Minimal => "minimal"@,
        AuditLevel::Standard => "standard"@,
        AuditLevel::Detailed => "detailed"@,
    }
}

impl AuditLevel {
    /// Spelling of the level in settings files.
    pub fn as_str(self) -> (r: &'static str)
        ensures
            r@ == audit_level_name(self),
    {
        match self {
            AuditLevel::Minimal => "minimal",
            AuditLevel::Standard => "standard",
            AuditLevel::Detailed => "detailed",
        }
    }

    /// Reads a level name in any mix of upper and lower case.
    pub fn from_str_case_insensitive(s: &str) -> (r: Result<AuditLevel, ConfigError>)
        ensures
            match r {
                Ok(level) => audit_level_name(level) == ascii_lower(s@),
                Err(e) => {
                    &&& ascii_lower(s@) != "minimal"@
                    &&& ascii_lower(s@) != "standard"@
                    &&& ascii_lower(s@) != "detailed"@
                    &&& e matches ConfigError::ParseField { field, value, reason } && field@
                        == "audit_level"@ && value@ == ascii_lower(s@) && reason@
                        == "expected one of: minimal, standard, detailed"@
                },
            },
    {
        let lowered = lowercase_ascii(s);
        if is_text(&lowered, "minimal") {
            Ok(AuditLevel::Minimal)
        } else if is_text(&lowered, "standard") {
            Ok(AuditLevel::Standard)
        } else if is_text(&lowered, "detailed") {
            Ok(AuditLevel::Detailed)
        } else {
            Err(
                ConfigError::ParseField {
                    field: "audit_level".to_owned(),
                    value: lowered,
                    reason: "expected one of: minimal, standard, detailed".to_owned(),
                },
            )
        }
    }
}

/// Default trust threshold: the rank of `Suggest`.
pub fn default_trust_threshold() -> (r: u8)
    ensures
        r == 2,
{
    2
}

/// Words read as `true`.
pub open spec fn is_true_word(v: Seq<char>) -> bool {
    v == "true"@ || v == "1"@ || v == "yes"@ || v == "on"@
}

/// Words read as `false`.
pub open spec fn is_false_word(v: Seq<char>) -> bool {
    v == "false"@ || v == "0"@ || v == "no"@ || v == "off"@
}

/// Reads the flag `key` from its text `raw`: surrounding white space is
/// ignored, case too, and `true/false`, `1/0`, `yes/no`, `on/off` are
/// accepted.
pub fn parse_flag(key: &str, raw: &str) -> (r: Result<bool, ConfigError>)
    ensures
        ({
            let v = ascii_lower(trim_of(raw@));
            match r {
                Ok(b) => (b && is_true_word(v)) || (!b && is_false_word(v)),
                Err(e) => {
                    &&& !is_true_word(v)
                    &&& !is_false_word(v)
                    &&& e matches ConfigError::ParseField { field, value, reason } && field@
                        == key@ && value@ == v && reason@
                        == "expected one of: true/false, 1/0, yes/no, on/off"@
                },
            }
        }),
{
    let v = lowercase_ascii(trim_text(raw));
    if is_text(&v, "true") || is_text(&v, "1") || is_text(&v, "yes") || is_text(&v, "on") {
        Ok(true)
    } else if is_text(&v, "false") || is_text(&v, "0") || is_text(&v, "no") || is_text(&v, "off") {
        Ok(false)
    } else {
        Err(
            ConfigError::ParseField {
                field: key.to_owned(),
                value: v,
                reason: "expected one of: true/false, 1/0, yes/no, on/off".to_owned(),
            },
        )
    }
}

/// Accepts a trust threshold of `0..=5` (a tier rank) read from `field`.
pub fn check_trust_threshold(field: &str, value: u8) -> (r: Result<u8, ConfigError>)
    ensures
        value <= 5 ==> r == Ok::<u8, ConfigError>(value),
        value > 5 ==> (r matches Err(ConfigError::InvalidRange { field: f, value: v, reason })
            && f@ == field@ && v@ == crate::text::decimal(value as nat) && reason@
            == "must be in range 0-5 (matching TrustLevel discriminants)"@),
{
    if value > 5 {
        Err(
            ConfigError::InvalidRange {
                field: field.to_owned(),
                value: decimal_text(value as u64),
                reason: "must be in range 0-5 (matching TrustLevel discriminants)".to_owned(),
            },
        )
    } else {
        Ok(value)
    }
}

} // verus!
