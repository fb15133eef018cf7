//! The settings that the composition root needs, read from what the
//! environment said. Reading the environment is the caller's part; what a
//! missing or malformed value means is decided here.

use vstd::prelude::*;
use vstd::string::StringExecFns;
use vstd::utf8::encode_utf8;

verus! {

/// What the environment said of one variable.
pub enum Lookup {
    /// The variable is set to this text.
    Present(String),
    /// The variable is not set.
    Absent,
    /// The variable is set to something that is no Unicode text.
    NotUnicode,
}

/// Why the settings are unusable. Each kind carries the name of the
/// variable at fault.
pub enum ConfigError {
    /// A required variable is not set.
    Missing(String),
    /// A variable holds something that is no Unicode text.
    NotUnicode(String),
    /// A variable holds a text that is not of the expected form.
    Malformed(String),
}

/// The kinds of [`ConfigError`].
pub enum Fault {
    Missing,
    NotUnicode,
    Malformed,
}

/// The mathematical content of a [`ConfigError`]: its kind and the name of
/// the variable at fault.
pub struct FaultView {
    pub kind: Fault,
    pub variable: Seq<char>,
}

impl View for ConfigError {
    type V = FaultView;

    open spec fn view(&self) -> FaultView {
        match *self {
            ConfigError::Missing(name) => FaultView { kind: Fault::Missing, variable: name@ },
            ConfigError::NotUnicode(name) => FaultView { kind: Fault::NotUnicode, variable: name@ },
            ConfigError::Malformed(name) => FaultView { kind: Fault::Malformed, variable: name@ },
        }
    }
}

/// The message for a failed start.
pub open spec fn failure_message(fault: FaultView) -> Seq<char> {
    match fault.kind {
        Fault::Missing => "Environment variable "@ + fault.variable + " is required."@,
        Fault::NotUnicode => "Environment variable "@ + fault.variable + " is not unicode."@,
        Fault::Malformed => "Failed to parse environment variable "@ + fault.variable + "."@,
    }
}

impl ConfigError {
    /// The message with which the process gives up at startup.
    pub fn message(&self) -> (out: String)
        ensures
            out@ == failure_message(self@),
    {
        match self {
            ConfigError::Missing(name) => {
                let mut text = String::from_str("Environment variable ");
                text.append(name.as_str());
                text.append(" is required.");
                text
            },
            ConfigError::NotUnicode(name) => {
                let mut text = String::from_str("Environment variable ");
                text.append(name.as_str());
                text.append(" is not unicode.");
                text
            },
            ConfigError::Malformed(name) => {
                let mut text = String::from_str("Failed to parse environment variable ");
                text.append(name.as_str());
                text.append(".");
                text
            },
        }
    }
}

/// A text, or the fault that stands in its place.
pub open spec fn text_or_fault(outcome: Result<String, ConfigError>) -> Result<Seq<char>, FaultView> {
    match outcome {
        Ok(text) => Ok(text@),
        Err(e) => Err(e@),
    }
}

/// A port, or the fault that stands in its place.
pub open spec fn port_or_fault(outcome: Result<u16, ConfigError>) -> Result<u16, FaultView> {
    match outcome {
        Ok(port) => Ok(port),
        Err(e) => Err(e@),
    }
}

/// What a required variable yields: its text, or the fault of its absence.
pub open spec fn required_of(name: Seq<char>, lookup: Lookup) -> Result<Seq<char>, FaultView> {
    match lookup {
        Lookup::Present(value) => Ok(value@),
        Lookup::Absent => Err(FaultView { kind: Fault::Missing, variable: name }),
        Lookup::NotUnicode => Err(FaultView { kind: Fault::NotUnicode, variable: name }),
    }
}

/// The value of a required variable.
pub fn required(name: &str, lookup: Lookup) -> (out: Result<String, ConfigError>)
    ensures
        text_or_fault(out) == required_of(name@, lookup),
        lookup matches Lookup::Present(value) ==> out == Ok::<String, ConfigError>(value),
{
    match lookup {
        Lookup::Present(value) => Ok(value),
        Lookup::Absent => Err(ConfigError::Missing(String::from_str(name))),
        Lookup::NotUnicode => Err(ConfigError::NotUnicode(String::from_str(name))),
    }
}

/// Whether all bytes are decimal digits.
pub open spec fn all_digits(digits: Seq<u8>) -> bool {
    forall|i: int| 0 <= i < digits.len() ==> 48 <= #[trigger] digits[i] <= 57
}

/// The number that a run of decimal digits writes.
pub open spec fn decimal(digits: Seq<u8>) -> nat
    decreases digits.len(),
{
    if digits.len() == 0 {
        0
    } else {
        (decimal(digits.drop_last()) * 10 + (digits.last() - 48)) as nat
    }
}

/// A text without the plus sign that may lead it.
pub open spec fn unsigned(text: Seq<u8>) -> Seq<u8> {
    if text.len() > 0 && text[0] == 43 {
        text.subrange(1, text.len() as int)
    } else {
        text
    }
}

/// The port that a text, given by its UTF-8 bytes, writes: an optional
/// plus sign and then decimal digits, at least one and nothing else, that
/// make a number of 16 bits.
pub open spec fn port_of(text: Seq<u8>) -> Option<u16> {
    let digits = unsigned(text);
    if digits.len() > 0 && all_digits(digits) && decimal(digits) <= u16::MAX {
        Some(decimal(digits) as u16)
    } else {
        None
    }
}

/// More digits never write a smaller number.
pub proof fn lemma_decimal_grows(digits: Seq<u8>, k: int)
    requires
        all_digits(digits),
        0 <= k <= digits.len(),
    ensures
        decimal(digits.subrange(0, k)) <= decimal(digits),
    decreases digits.len() - k,
{
    if k == digits.len() {
        assert(digits.subrange(0, k) =~= digits);
    } else {
        lemma_decimal_grows(digits, k + 1);
        let longer = digits.subrange(0, k + 1);
        assert(longer.drop_last() =~= digits.subrange(0, k));
        assert(longer.last() == digits[k]);
    }
}

/// Reads a port number.
pub fn parse_port(text: &str) -> (out: Option<u16>)
    ensures
        out == port_of(encode_utf8(text@)),
{
    let bytes = text.as_bytes();
    let n: usize = bytes.len();
    let start: usize = if n > 0 && bytes[0] == 43 {
        1
    } else {
        0
    };
    if start == n {
        return None;
    }
    let ghost digits = unsigned(bytes@);
    assert(digits =~= bytes@.subrange(start as int, n as int));
    let mut value: u32 = 0;
    let mut i: usize = start;
    assert(digits.subrange(0, 0) =~= Seq::<u8>::empty());
    while i < n
        invariant
            start <= i <= n,
            n == bytes@.len(),
            bytes@ == encode_utf8(text@),
            digits == unsigned(bytes@),
            digits == bytes@.subrange(start as int, n as int),
            all_digits(digits.subrange(0, i - start)),
            value == decimal(digits.subrange(0, i - start)),
            value <= u16::MAX,
        decreases n - i,
    {
        let b: u8 = bytes[i];
        let ghost seen = digits.subrange(0, i - start);
        let ghost next = digits.subrange(0, i - start + 1);
        proof {
            assert(next.drop_last() =~= seen);
            assert(next.last() == b);
        }
        if b < 48 || b > 57 {
            assert(!all_digits(digits)) by {
                assert(digits[i - start] == b);
            }
            return None;
        }
        let grown: u32 = value * 10 + (b - 48) as u32;
        assert(all_digits(next)) by {
            assert forall|k: int| 0 <= k < next.len() implies 48 <= #[trigger] next[k] <= 57 by {
                if k < seen.len() {
                    assert(next[k] == seen[k]);
                }
            }
        }
        if grown > 65535 {
            proof {
                if all_digits(digits) {
                    lemma_decimal_grows(digits, i - start + 1);
                }
            }
            return None;
        }
        value = grown;
        i = i + 1;
    }
    assert(digits.subrange(0, n - start) =~= digits);
    Some(value as u16)
}

/// What a required variable yields as a port.
pub open spec fn required_port_of(name: Seq<char>, lookup: Lookup) -> Result<u16, FaultView> {
    match required_of(name, lookup) {
        Err(fault) => Err(fault),
        Ok(text) => match port_of(encode_utf8(text)) {
            Some(port) => Ok(port),
            None => Err(FaultView { kind: Fault::Malformed, variable: name }),
        },
    }
}

/// The port of a required variable.
pub fn required_port(name: &str, lookup: Lookup) -> (out: Result<u16, ConfigError>)
    ensures
        port_or_fault(out) == required_port_of(name@, lookup),
{
    let value = match required(name, lookup) {
        Ok(value) => value,
        Err(e) => { return Err(e); },
    };
    match parse_port(value.as_str()) {
        Some(port) => Ok(port),
        None => Err(ConfigError::Malformed(String::from_str(name))),
    }
}

/// What the environment said of every variable that the service reads.
pub struct Environment {
    /// `DATABASE_URL`: where the store is.
    pub database_url: Lookup,
    /// `PORT`: where the service listens.
    pub port: Lookup,
    /// `AUTH_ISSUER`: the issuer that tokens must name.
    pub issuer: Lookup,
    /// `AUTH_AUDIENCE`: the audience that tokens must be meant for.
    pub audience: Lookup,
    /// `AUTH_KEYS_URL`: where the provider publishes its signing keys.
    pub keys_url: Lookup,
}

/// The settings of a service that may start.
pub struct Settings {
    pub database_url: String,
    pub port: u16,
    pub issuer: String,
    pub audience: String,
    pub keys_url: String,
}

/// The mathematical content of [`Settings`].
pub struct SettingsView {
    pub database_url: Seq<char>,
    pub port: u16,
    pub issuer: Seq<char>,
    pub audience: Seq<char>,
    pub keys_url: Seq<char>,
}

impl View for Settings {
    type V = SettingsView;

    open spec fn view(&self) -> SettingsView {
        SettingsView {
            database_url: self.database_url@,
            port: self.port,
            issuer: self.issuer@,
            audience: self.audience@,
            keys_url: self.keys_url@,
        }
    }
}

/// The settings that an environment yields, or the fault of the first
/// variable that is missing or malformed, in the order of the fields.
pub open spec fn settings_of(environment: Environment) -> Result<SettingsView, FaultView> {
    match required_of("DATABASE_URL"@, environment.database_url) {
        Err(fault) => Err(fault),
        Ok(database_url) => match required_port_of("PORT"@, environment.port) {
            Err(fault) => Err(fault),
            Ok(port) => match required_of("AUTH_ISSUER"@, environment.issuer) {
                Err(fault) => Err(fault),
                Ok(issuer) => match required_of("AUTH_AUDIENCE"@, environment.audience) {
                    Err(fault) => Err(fault),
                    Ok(audience) => match required_of("AUTH_KEYS_URL"@, environment.keys_url) {
                        Err(fault) => Err(fault),
                        Ok(keys_url) => Ok(
                            SettingsView { database_url, port, issuer, audience, keys_url },
                        ),
                    },
                },
            },
        },
    }
}

/// Settings, or the fault that stands in their place.
pub open spec fn settings_or_fault(outcome: Result<Settings, ConfigError>) -> Result<
    SettingsView,
    FaultView,
> {
    match outcome {
        Ok(settings) => Ok(settings@),
        Err(e) => Err(e@),
    }
}

/// Reads the settings. Nothing is defaulted: a service that lacks a
/// setting does not start.
pub fn load_settings(environment: Environment) -> (out: Result<Settings, ConfigError>)
    ensures
        settings_or_fault(out) == settings_of(environment),
{
    let database_url = match required("DATABASE_URL", environment.database_url) {
        Ok(value) => value,
        Err(e) => { return Err(e); },
    };
    let port = match required_port("PORT", environment.port) {
        Ok(value) => value,
        Err(e) => { return Err(e); },
    };
    let issuer = match required("AUTH_ISSUER", environment.issuer) {
        Ok(value) => value,
        Err(e) => { return Err(e); },
    };
    let audience = match required("AUTH_AUDIENCE", environment.audience) {
        Ok(value) => value,
        Err(e) => { return Err(e); },
    };
    let keys_url = match required("AUTH_KEYS_URL", environment.keys_url) {
        Ok(value) => value,
        Err(e) => { return Err(e); },
    };
    Ok(Settings { database_url, port, issuer, audience, keys_url })
}

} // verus!
