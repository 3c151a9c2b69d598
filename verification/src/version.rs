//! Version numbers as libvirt encodes them.

use crate::error::VirtError;
use crate::text::{decimal_string, spec_decimal};
use vstd::prelude::*;
use vstd::string::StringExecFns;

verus! {

/// A software version, decoded from the single integer libvirt reports:
/// `encoded == major * 1_000_000 + minor * 1_000 + release`.
#[derive(Debug, Copy, Clone, Eq, PartialEq, Hash, Structural)]
pub struct Version {
    /// The major version number.
    pub major: u64,
    /// The minor version number.
    pub minor: u64,
    /// The release version number.
    pub release: u64,
}

/// The version encoded by `v` under libvirt's scheme: the release in the
/// three lowest decimal digits, the minor version in the next three, the
/// major version in the rest.
pub open spec fn spec_decode_version(v: u64) -> Version {
    Version {
        major: (v as int / 1_000_000) as u64,
        minor: ((v as int % 1_000_000) / 1_000) as u64,
        release: (v as int % 1_000) as u64,
    }
}

impl From<u64> for Version {
    fn from(v: u64) -> (r: Version) {
        Version {
            major: v / 1_000_000,
            minor: (v % 1_000_000) / 1_000,
            release: v % 1_000,
        }
    }
}

impl vstd::std_specs::convert::FromSpecImpl<u64> for Version {
    open spec fn obeys_from_spec() -> bool {
        true
    }

    open spec fn from_spec(v: u64) -> Version {
        spec_decode_version(v)
    }
}

/// Decoding inverts the encoding scheme: a number built as
/// `major * 1_000_000 + minor * 1_000 + release`, with minor and release
/// below one thousand, decodes to exactly those three components.
pub proof fn lemma_decode_encoded(major: u64, minor: u64, release: u64)
    requires
        minor < 1000,
        release < 1000,
        major * 1_000_000 + minor * 1_000 + release <= u64::MAX,
    ensures
        spec_decode_version((major * 1_000_000 + minor * 1_000 + release) as u64) == (Version {
            major,
            minor,
            release,
        }),
{
    let v = major * 1_000_000 + minor * 1_000 + release;
    vstd::arithmetic::div_mod::lemma_fundamental_div_mod_converse(
        v as int,
        1_000_000,
        major as int,
        minor * 1_000 + release,
    );
    vstd::arithmetic::div_mod::lemma_fundamental_div_mod_converse(
        minor * 1_000 + release,
        1_000,
        minor as int,
        release as int,
    );
    assert(v as int == (major * 1_000 + minor) * 1_000 + release);
    vstd::arithmetic::div_mod::lemma_fundamental_div_mod_converse(
        v as int,
        1_000,
        major * 1_000 + minor,
        release as int,
    );
}

impl Version {
    /// Renders the version as `major.minor.release` in decimal.
    pub fn text(&self) -> (r: String)
        ensures
            r@ == spec_decimal(self.major as int) + "."@ + spec_decimal(self.minor as int)
                + "."@ + spec_decimal(self.release as int),
    {
        let minor = decimal_string(self.minor);
        let release = decimal_string(self.release);
        decimal_string(self.major).concat(".").concat(minor.as_str()).concat(".").concat(
            release.as_str(),
        )
    }
}

/// Returns the version of the libvirt library itself, given the outcome of
/// the foreign version query: the encoded number the query reported, or
/// the error record captured when it failed.
pub fn lib_version(raw: Result<u64, VirtError>) -> (r: Result<Version, VirtError>)
    ensures
        raw matches Ok(v) ==> r == Ok::<Version, VirtError>(spec_decode_version(v)),
        raw matches Err(e) ==> r == Err::<Version, VirtError>(e),
{
    match raw {
        Ok(v) => Ok(Version::from(v)),
        Err(e) => Err(e),
    }
}

} // verus!
