//! A small configuration record with validated fields.
//!
//! The debug level is restricted to a fixed set of five names; an invalid
//! assignment leaves the previous level in place and reports an error.
//! Ports are read from text and rejected when the text is not a number or
//! the value is zero.

use vstd::prelude::*;
use crate::text::{dec_val, digits_of, is_u16_numeral, parse_u16, str_eq};

verus! {

/// A configuration: port, host, timeout, and a validated debug level.
#[derive(Debug, Clone)]
pub struct Config {
    pub port: u16,
    pub host: String,
    pub timeout: u64,
    pub debug_level: String,
}

/// The five recognized debug levels.
pub open spec fn is_valid_level(s: Seq<char>) -> bool {
    s == "trace"@ || s == "debug"@ || s == "info"@ || s == "warn"@ || s == "error"@
}

/// The text denotes a value a 16-bit port can hold: an optional leading
/// plus sign, then digits, worth at most 65535.
pub open spec fn parses_as_port(s: Seq<char>) -> bool {
    is_u16_numeral(s)
}

/// The port number the text denotes (meaningful only when it parses).
pub open spec fn port_value(s: Seq<char>) -> nat {
    dec_val(digits_of(s))
}

impl Config {
    /// A new configuration starts at debug level `"info"`.
    pub fn new(port: u16, host: String, timeout: u64) -> (c: Config)
        ensures
            c.port == port,
            c.host == host,
            c.timeout == timeout,
            c.debug_level@ == "info"@,
    {
        Config { port, host, timeout, debug_level: String::from_str("info") }
    }

    /// Sets the debug level when `level` is one of the five recognized
    /// names; otherwise reports an error and changes nothing.
    pub fn set_debug_level(&mut self, level: &str) -> (r: Result<(), String>)
        ensures
            r is Ok <==> is_valid_level(level@),
            is_valid_level(level@) ==> final(self).debug_level@ == level@,
            !is_valid_level(level@) ==> *final(self) == *old(self),
            r matches Err(m) ==> m@ == "invalid debug level"@,
            final(self).port == old(self).port,
            final(self).host == old(self).host,
            final(self).timeout == old(self).timeout,
    {
        if str_eq(level, "trace") || str_eq(level, "debug") || str_eq(level, "info") || str_eq(
            level,
            "warn",
        ) || str_eq(level, "error") {
            self.debug_level = level.to_owned();
            Ok(())
        } else {
            Err(String::from_str("invalid debug level"))
        }
    }

    /// The currently configured debug level.
    pub fn get_debug_level(&self) -> (r: &str)
        ensures
            r@ == self.debug_level@,
    {
        self.debug_level.as_str()
    }
}

/// Reads and checks a port: the text must be a numeral a 16-bit value can
/// hold, and the port must not be zero.
pub fn validate_port(port_str: &str) -> (r: Result<u16, String>)
    ensures
        r is Ok <==> parses_as_port(port_str@) && port_value(port_str@) != 0,
        r matches Ok(p) ==> p as nat == port_value(port_str@),
        !parses_as_port(port_str@) ==> (r matches Err(m) && m@ == "not a valid number"@),
        parses_as_port(port_str@) && port_value(port_str@) == 0 ==> (r matches Err(m) && m@
            == "port cannot be 0"@),
{
    match parse_u16(port_str) {
        None => Err(String::from_str("not a valid number")),
        Some(port) => {
            if port == 0 {
                Err(String::from_str("port cannot be 0"))
            } else {
                Ok(port)
            }
        },
    }
}

/// The corrected validator also guards the documented upper bound. A 16-bit
/// port cannot exceed 65535, and `parse_u16` already rejects larger
/// numerals, so the final guard can never fire; it stands because the
/// exercise states the full validation rule explicitly.
pub fn validate_port_safe(port_str: &str) -> (r: Result<u16, String>)
    ensures
        r is Ok <==> parses_as_port(port_str@) && port_value(port_str@) != 0,
        r matches Ok(p) ==> p as nat == port_value(port_str@),
        !parses_as_port(port_str@) ==> (r matches Err(m) && m@ == "not a valid number"@),
        parses_as_port(port_str@) && port_value(port_str@) == 0 ==> (r matches Err(m) && m@
            == "port cannot be 0"@),
{
    match parse_u16(port_str) {
        None => Err(String::from_str("not a valid number")),
        Some(port) => {
            if port == 0 {
                Err(String::from_str("port cannot be 0"))
            } else if port > 65535 {
                Err(String::from_str("port cannot be above 65535"))
            } else {
                Ok(port)
            }
        },
    }
}

/// The failure classes a configuration can be rejected with.
#[derive(Debug)]
pub enum ConfigError {
    InvalidPort(String),
    InvalidHost(String),
    FileNotFound(String),
    ParseError(String),
}

/// Builds a configuration from a port numeral and a host name, classifying
/// each failure: unreadable port text, a zero port, or an empty host, in
/// that order. A successful load uses a 30-second timeout.
pub fn load_config(port_str: &str, host: &str) -> (r: Result<Config, ConfigError>)
    ensures
        !parses_as_port(port_str@) ==> (r matches Err(e) && e matches ConfigError::ParseError(m)
            && m@ == port_str@),
        parses_as_port(port_str@) && port_value(port_str@) == 0 ==> (r matches Err(e) && e matches
            ConfigError::InvalidPort(m) && m@ == "port cannot be 0"@),
        parses_as_port(port_str@) && port_value(port_str@) != 0 && host@.len() == 0 ==> (r matches Err(
            e,
        ) && e matches ConfigError::InvalidHost(m) && m@ == "host cannot be empty"@),
        parses_as_port(port_str@) && port_value(port_str@) != 0 && host@.len() > 0 ==> (r matches Ok(c)
            && c.port as nat == port_value(port_str@) && c.host@ == host@ && c.timeout == 30
            && c.debug_level@ == "info"@),
{
    match parse_u16(port_str) {
        None => Err(ConfigError::ParseError(port_str.to_owned())),
        Some(port) => {
            if port == 0 {
                Err(ConfigError::InvalidPort(String::from_str("port cannot be 0")))
            } else if host.is_empty() {
                Err(ConfigError::InvalidHost(String::from_str("host cannot be empty")))
            } else {
                Ok(Config::new(port, host.to_owned(), 30))
            }
        },
    }
}

} // verus!
