use vstd::prelude::*;

verus! {

/// Why a load, a reload or the setting up of a session failed.
///
/// Each variant that wraps an outside failure carries its message.
#[derive(Debug, Clone, PartialEq, Eq)]
pub enum Error {
    /// The configuration file does not exist.
    NotFound(String),
    /// The configuration file exists but may not be opened.
    PermissionDenied(String),
    /// The file was opened but reading its contents failed.
    FileRead(String),
    /// Opening the file failed for another reason.
    Io(String),
    /// The contents are not a valid document of the expected shape.
    Deserialize(String),
    /// The change notification facility failed.
    Notify(String),
    /// The path has no directory part to watch.
    NoParent,
    /// The configuration rejected the parsed data.
    Apply(String),
}

impl Error {
    /// The operator-facing text of this error.
    pub fn message(&self) -> (r: String)
        ensures
            r@ == self.spec_message(),
    {
        match self {
            Error::NoParent => String::from_str("Path doesn't have a parent"),
            Error::NotFound(m) => m.clone(),
            Error::PermissionDenied(m) => m.clone(),
            Error::FileRead(m) => m.clone(),
            Error::Io(m) => m.clone(),
            Error::Deserialize(m) => m.clone(),
            Error::Notify(m) => m.clone(),
            Error::Apply(m) => m.clone(),
        }
    }

    /// The text carried by the error; fixed wording for `NoParent`.
    pub open spec fn spec_message(&self) -> Seq<char> {
        match self {
            Error::NoParent => "Path doesn't have a parent"@,
            Error::NotFound(m) => m@,
            Error::PermissionDenied(m) => m@,
            Error::FileRead(m) => m@,
            Error::Io(m) => m@,
            Error::Deserialize(m) => m@,
            Error::Notify(m) => m@,
            Error::Apply(m) => m@,
        }
    }
}

} // verus!
