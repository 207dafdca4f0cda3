//! The error taxonomy of the generation pipeline. Outside failures are
//! carried as plain messages; a method renders each variant with its
//! category prefix.

use vstd::prelude::*;

verus! {

/// One failure surfaced to the caller of the generation entry point.
#[derive(Debug, Clone)]
pub enum Error {
    /// The output sink failed.
    Io(String),
    /// JSON encoding failed.
    Json(String),
    /// Configuration serialization failed.
    Toml(String),
    /// Configuration deserialization failed.
    TomlDe(String),
    /// An option value is invalid.
    Config(String),
    /// A generated claim violates an internal invariant.
    Validation(String),
    /// A generator-internal failure.
    Generation(String),
}

/// The rendered message of an error: its category prefix and its detail.
pub open spec fn error_message_spec(e: Error) -> Seq<char> {
    match e {
        Error::Io(m) => "I/O error: "@ + m@,
        Error::Json(m) => "JSON error: "@ + m@,
        Error::Toml(m) => "TOML serialization error: "@ + m@,
        Error::TomlDe(m) => "TOML deserialization error: "@ + m@,
        Error::Config(m) => "Configuration error: "@ + m@,
        Error::Validation(m) => "Validation error: "@ + m@,
        Error::Generation(m) => "Generation error: "@ + m@,
    }
}

impl Error {
    /// Renders this error with its category prefix.
    pub fn message(&self) -> (r: String)
        ensures
            r@ == error_message_spec(*self),
    {
        match self {
            Error::Io(m) => {
                let mut r = String::from_str("I/O error: ");
                r.append(m.as_str());
                r
            },
            Error::Json(m) => {
                let mut r = String::from_str("JSON error: ");
                r.append(m.as_str());
                r
            },
            Error::Toml(m) => {
                let mut r = String::from_str("TOML serialization error: ");
                r.append(m.as_str());
                r
            },
            Error::TomlDe(m) => {
                let mut r = String::from_str("TOML deserialization error: ");
                r.append(m.as_str());
                r
            },
            Error::Config(m) => {
                let mut r = String::from_str("Configuration error: ");
                r.append(m.as_str());
                r
            },
            Error::Validation(m) => {
                let mut r = String::from_str("Validation error: ");
                r.append(m.as_str());
                r
            },
            Error::Generation(m) => {
                let mut r = String::from_str("Generation error: ");
                r.append(m.as_str());
                r
            },
        }
    }
}

} // verus!
