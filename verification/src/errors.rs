//! The error kinds the library and its callers distinguish.

use vstd::prelude::*;

verus! {

/// What went wrong. Schema faults come from reading a wire document;
/// the other kinds are raised by the callers that do I/O around the
/// library and are carried here so that every layer speaks one type.
#[derive(Debug)]
pub enum WeatherError {
    /// A document does not match the expected wire schema.
    Schema,
    /// A network fetch failed.
    Transport,
    /// A file or process operation failed.
    Io,
    /// The API key is absent from the environment.
    MissingConfig,
    /// The asked-for operation has no live implementation.
    Unimplemented,
}

impl WeatherError {
    /// A short description of the kind.
    pub fn message(&self) -> (r: &'static str)
        ensures
            (*self matches WeatherError::Schema) ==> r@ == "document does not match the wire schema"@,
            (*self matches WeatherError::Transport) ==> r@ == "network fetch failed"@,
            (*self matches WeatherError::Io) ==> r@ == "file or process operation failed"@,
            (*self matches WeatherError::MissingConfig) ==> r@ == "API key is not configured"@,
            (*self matches WeatherError::Unimplemented) ==> r@ == "not implemented"@,
    {
        match self {
            WeatherError::Schema => "document does not match the wire schema",
            WeatherError::Transport => "network fetch failed",
            WeatherError::Io => "file or process operation failed",
            WeatherError::MissingConfig => "API key is not configured",
            WeatherError::Unimplemented => "not implemented",
        }
    }
}

} // verus!
