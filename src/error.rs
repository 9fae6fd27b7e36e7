//! Errors of loading and persisting configuration.
use vstd::prelude::*;

verus! {

/// Why a configuration source could not be read or persisted.
#[derive(Debug, PartialEq, Eq)]
pub enum ConfigError {
    /// The backing store could not be read or written.
    Io(String),
    /// The stored text is not a JSON object.
    Parse(String),
    /// The document could not be turned into text.
    Serialize(String),
    /// A save was asked of a document that may not be written.
    WriteForbidden,
}

impl ConfigError {
    /// A one-line description of the error.
    pub fn message(&self) -> (r: String)
        ensures
            match self {
                ConfigError::Io(m) => r@ == m@,
                ConfigError::Parse(m) => r@ == m@,
                ConfigError::Serialize(m) => r@ == m@,
                ConfigError::WriteForbidden => r@ == "Cannot write to this source"@,
            },
    {
        match self {
            ConfigError::Io(m) => m.clone(),
            ConfigError::Parse(m) => m.clone(),
            ConfigError::Serialize(m) => m.clone(),
            ConfigError::WriteForbidden => String::from_str("Cannot write to this source"),
        }
    }
}

} // verus!
