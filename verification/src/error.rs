//! The error taxonomy of the library.

use vstd::prelude::*;

verus! {

/// Every failure the library (or the store operations built on it)
/// can report, as a distinguishable kind plus enough payload to render
/// a human-readable message.
#[derive(Debug, Clone, PartialEq, Eq)]
pub enum Error {
    /// Filesystem or database engine I/O failed; the payload carries
    /// the engine's message.
    IoFailure(String),
    /// A store was to be created at a path that already exists.
    StoreAlreadyExists,
    /// A settings key was absent from its table.
    SettingNotFound,
    /// A stored settings value could not be read at the requested type.
    TypeMismatch,
    /// An interchange record violates the expected shape; the payload
    /// names the offending key.
    MalformedRecord(String),
    /// A field required during storage conversion was absent; the
    /// payload names the field.
    MissingField(String),
    /// The store failed its structural integrity check.
    IntegrityCheckFailed,
    /// The host operating system was not recognized while synthesizing
    /// envelope metadata.
    UnsupportedPlatform,
    /// A session record carried a type tag the import does not know;
    /// non-fatal, the record is skipped. The payload holds the tag.
    UnknownSessionType(String),
}

impl Error {
    /// What a rendered message for this error looks like.
    pub open spec fn message_spec(self) -> Seq<char> {
        match self {
            Error::IoFailure(m) => "i/o failure: "@ + m@,
            Error::StoreAlreadyExists => "store already exists"@,
            Error::SettingNotFound => "setting not found"@,
            Error::TypeMismatch => "setting has an unexpected type"@,
            Error::MalformedRecord(k) => "malformed record: "@ + k@,
            Error::MissingField(k) => "missing field: "@ + k@,
            Error::IntegrityCheckFailed => "integrity check failed"@,
            Error::UnsupportedPlatform => "unsupported platform"@,
            Error::UnknownSessionType(t) => "unknown session type: "@ + t@,
        }
    }

    /// A human-readable description of the error.
    pub fn message(&self) -> (r: String)
        ensures
            r@ == self.message_spec(),
    {
        match self {
            Error::IoFailure(m) => String::from_str("i/o failure: ").concat(m.as_str()),
            Error::StoreAlreadyExists => String::from_str("store already exists"),
            Error::SettingNotFound => String::from_str("setting not found"),
            Error::TypeMismatch => String::from_str("setting has an unexpected type"),
            Error::MalformedRecord(k) => String::from_str("malformed record: ").concat(k.as_str()),
            Error::MissingField(k) => String::from_str("missing field: ").concat(k.as_str()),
            Error::IntegrityCheckFailed => String::from_str("integrity check failed"),
            Error::UnsupportedPlatform => String::from_str("unsupported platform"),
            Error::UnknownSessionType(t) => {
                String::from_str("unknown session type: ").concat(t.as_str())
            },
        }
    }
}

} // verus!
