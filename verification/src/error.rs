//! Errors: records captured from libvirt's last-error state, local
//! validation failures, and the translation of the C return-code
//! convention.

use vstd::prelude::*;
use vstd::string::StringExecFns;

verus! {

/// Severity value libvirt puts in an error record: no error.
pub const VIR_ERR_NONE: u32 = 0;

/// Severity value libvirt puts in an error record: a warning.
pub const VIR_ERR_WARNING: u32 = 1;

/// Severity value libvirt puts in an error record: an error.
pub const VIR_ERR_ERROR: u32 = 2;

/// The known severities of a libvirt error record, with a fallback for
/// values this crate does not know.
#[derive(Debug, Clone, Copy, PartialEq, Eq, Structural)]
pub enum ErrorLevel {
    /// The record reports no error.
    NoError,
    /// The record reports a warning.
    Warning,
    /// The record reports an error.
    Error,
    /// The record carries a severity value outside the known ones.
    Unknown,
}

/// The severity tag for a raw level value from a libvirt error record.
pub open spec fn spec_level(level: u32) -> ErrorLevel {
    if level == VIR_ERR_NONE {
        ErrorLevel::NoError
    } else if level == VIR_ERR_WARNING {
        ErrorLevel::Warning
    } else if level == VIR_ERR_ERROR {
        ErrorLevel::Error
    } else {
        ErrorLevel::Unknown
    }
}

/// The text the crate uses for each severity when rendering an error.
pub open spec fn spec_level_text(level: u32) -> Seq<char> {
    match spec_level(level) {
        ErrorLevel::NoError => "No error"@,
        ErrorLevel::Warning => "Warning"@,
        ErrorLevel::Error => "Error"@,
        ErrorLevel::Unknown => "Unknown error level"@,
    }
}

/// An error reported by libvirt, captured from its thread-local last-error
/// state at the point of failure. The unverified shell copies the fields of
/// the C record into plain values; this crate owns them from then on.
#[derive(Debug)]
pub struct VirtError {
    /// The error code libvirt reported.
    pub code: i32,
    /// The subsystem (what libvirt calls the error's domain) that raised it.
    pub domain: i32,
    /// The raw severity value; see [`ErrorLevel`].
    pub level: u32,
    /// The human-readable message libvirt supplied.
    pub message: String,
}

impl VirtError {
    /// Returns the human-readable informative error message given by libvirt.
    pub fn message(&self) -> (r: &String)
        ensures
            r@ == self.message@,
    {
        &self.message
    }

    /// The severity of this record, tagged.
    pub fn level(&self) -> (r: ErrorLevel)
        ensures
            r == spec_level(self.level),
    {
        if self.level == VIR_ERR_NONE {
            ErrorLevel::NoError
        } else if self.level == VIR_ERR_WARNING {
            ErrorLevel::Warning
        } else if self.level == VIR_ERR_ERROR {
            ErrorLevel::Error
        } else {
            ErrorLevel::Unknown
        }
    }

    /// The text this crate uses for the record's severity.
    pub fn level_text(&self) -> (r: &'static str)
        ensures
            r@ == spec_level_text(self.level),
    {
        if self.level == VIR_ERR_NONE {
            "No error"
        } else if self.level == VIR_ERR_WARNING {
            "Warning"
        } else if self.level == VIR_ERR_ERROR {
            "Error"
        } else {
            "Unknown error level"
        }
    }

    /// Renders the record: the severity text, a separating colon, and
    /// libvirt's message.
    pub fn display(&self) -> (r: String)
        ensures
            r@ == spec_level_text(self.level) + ": "@ + self.message@,
    {
        let prefix = String::from_str(self.level_text());
        prefix.concat(": ").concat(self.message.as_str())
    }
}

/// An error from any operation of this crate: either one reported by
/// libvirt, or a local validation failure found before or after the
/// foreign call.
#[derive(Debug)]
#[non_exhaustive]
pub enum Error {
    /// libvirt reported a failure; the captured record is attached.
    VirtError(VirtError),
    /// A URI destined for the C API holds a nul byte, at the given
    /// byte position.
    InvalidUri(usize),
    /// An XML document destined for the C API holds a nul byte, at the
    /// given byte position.
    InvalidXml(usize),
    /// A name destined for the C API holds a nul byte, at the given
    /// byte position.
    InvalidName(usize),
    /// Bytes coming back from the C API are not valid UTF-8.
    Utf8Error,
}

impl From<VirtError> for Error {
    fn from(e: VirtError) -> (r: Error) {
        Error::VirtError(e)
    }
}

impl vstd::std_specs::convert::FromSpecImpl<VirtError> for Error {
    open spec fn obeys_from_spec() -> bool {
        true
    }

    open spec fn from_spec(e: VirtError) -> Error {
        Error::VirtError(e)
    }
}

impl Error {
    /// Renders the error: libvirt's own rendering for a captured record,
    /// a fixed description for each local validation failure.
    pub fn display(&self) -> (r: String)
        ensures
            match self {
                Error::VirtError(e) => r@ == spec_level_text(e.level) + ": "@ + e.message@,
                Error::InvalidUri(_) => r@ == "Invalid URI"@,
                Error::InvalidXml(_) => r@ == "Invalid XML"@,
                Error::InvalidName(_) => r@ == "Invalid name"@,
                Error::Utf8Error => r@ == "String is not valid UTF-8"@,
            },
    {
        match self {
            Error::VirtError(e) => e.display(),
            Error::InvalidUri(_) => String::from_str("Invalid URI"),
            Error::InvalidXml(_) => String::from_str("Invalid XML"),
            Error::InvalidName(_) => String::from_str("Invalid name"),
            Error::Utf8Error => String::from_str("String is not valid UTF-8"),
        }
    }
}

/// Translates libvirt's integer return convention: `-1` signals failure,
/// every other value success. On failure the error record the shell
/// captured is handed through.
pub fn check_ret(ret: i32, err: Option<VirtError>) -> (r: Result<(), VirtError>)
    requires
        ret == -1 ==> err is Some,
    ensures
        r is Err <==> ret == -1,
        ret == -1 ==> r == Err::<(), VirtError>(err->0),
{
    if ret == -1 {
        Err(err.unwrap())
    } else {
        Ok(())
    }
}

} // verus!
