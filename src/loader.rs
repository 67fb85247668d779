use vstd::prelude::*;
use crate::error::Error;

verus! {

/// How opening a file failed, as far as the load cares.
#[derive(Debug, Clone, Copy, PartialEq, Eq)]
pub enum OpenFailure {
    NotFound,
    PermissionDenied,
    Other,
}

/// A failed attempt to get a file's text: at opening it, or at reading it.
#[derive(Debug, Clone, PartialEq, Eq)]
pub enum FileFailure {
    Open(OpenFailure, String),
    Read(String),
}

/// The error a failed file access is reported as.
pub open spec fn spec_file_error(f: FileFailure) -> Error {
    match f {
        FileFailure::Open(OpenFailure::NotFound, m) => Error::NotFound(m),
        FileFailure::Open(OpenFailure::PermissionDenied, m) => Error::PermissionDenied(m),
        FileFailure::Open(OpenFailure::Other, m) => Error::Io(m),
        FileFailure::Read(m) => Error::FileRead(m),
    }
}

/// The error a failed file access is reported as: a missing file and a
/// denied permission keep their own kinds, any other failure to open is an
/// I/O error, and a failure after opening is a read error.
pub fn file_error(f: FileFailure) -> (r: Error)
    ensures
        r == spec_file_error(f),
{
    match f {
        FileFailure::Open(OpenFailure::NotFound, m) => Error::NotFound(m),
        FileFailure::Open(OpenFailure::PermissionDenied, m) => Error::PermissionDenied(m),
        FileFailure::Open(OpenFailure::Other, m) => Error::Io(m),
        FileFailure::Read(m) => Error::FileRead(m),
    }
}

/// What the parse of a document was turned into.
pub open spec fn spec_decoded<D>(parsed: Result<D, String>) -> Result<D, Error> {
    match parsed {
        Ok(d) => Ok(d),
        Err(m) => Err(Error::Deserialize(m)),
    }
}

/// Turns the parser's outcome into the load's: a parse failure becomes a
/// `Deserialize` error with the parser's diagnostic.
pub fn decoded<D>(parsed: Result<D, String>) -> (r: Result<D, Error>)
    ensures
        r == spec_decoded(parsed),
{
    match parsed {
        Ok(d) => Ok(d),
        Err(m) => Err(Error::Deserialize(m)),
    }
}

/// Relies on toml::from_str: reads a TOML document into a `D`, or reports
/// the parser's diagnostic through its `Display`. Whether it succeeds rests
/// on `D`'s own deserialisation, so nothing is promised of the outcome.
#[verifier::external_body]
fn parse_toml<D: serde::de::DeserializeOwned>(text: &str) -> (r: Result<D, String>) {
    toml::from_str::<D>(text).map_err(|e: toml::de::Error| e.to_string())
}

/// Turns the outcome of reading the configuration file into parsed data.
///
/// A failed read is classified by `file_error`; text that was read is parsed
/// as TOML, and a parse failure is a `Deserialize` error.
pub fn load<D: serde::de::DeserializeOwned>(read: Result<String, FileFailure>) -> (r: Result<D, Error>)
    ensures
        read matches Err(f) ==> r == Err::<D, Error>(spec_file_error(f)),
        read is Ok ==> (r is Ok || r->Err_0 is Deserialize),
{
    match read {
        Err(f) => Err(file_error(f)),
        Ok(text) => decoded(parse_toml::<D>(text.as_str())),
    }
}

} // verus!
