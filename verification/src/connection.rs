//! Connections to a hypervisor: open configuration, queries, and the
//! owning handle.

use crate::cbytes::{has_nul, CBytes};
use crate::domain::{CreateDomainCall, CreateFlags};
use crate::error::{check_ret, Error, VirtError};
use crate::text::string_from_utf8;
use crate::version::{spec_decode_version, Version};
use crate::wrapper::Wrapper;
use vstd::prelude::*;
use vstd::string::StringSliceAdditionalSpecFns;
use vstd::utf8::{decode_utf8, valid_utf8};

verus! {

/// Connection flag bit: open the connection read-only.
pub const VIR_CONNECT_RO: u32 = 1;

/// Connection flag bit: do not try to resolve URI aliases.
pub const VIR_CONNECT_NO_ALIASES: u32 = 2;

/// True when `flags` asks for a read-only connection.
pub open spec fn is_read_only(flags: u32) -> bool {
    flags & VIR_CONNECT_RO != 0
}

/// True when `flags` asks to leave URI aliases unresolved.
pub open spec fn is_no_aliases(flags: u32) -> bool {
    flags & VIR_CONNECT_NO_ALIASES != 0
}

/// A [`Connection`] builder: the URI to connect to, validated for the C
/// boundary, and the open flags.
#[derive(Debug)]
pub struct Builder {
    /// The validated URI bytes, or `None` to let the library pick a
    /// default.
    pub uri: Option<CBytes>,
    /// The open flags, a union of the connection flag bits.
    pub flags: u32,
}

impl Default for Builder {
    /// The default configuration: no URI and no flags set.
    fn default() -> (r: Builder)
        ensures
            r.uri is None,
            r.flags == 0,
    {
        Builder { uri: None, flags: 0 }
    }
}

impl Builder {
    /// Sets the URI of the hypervisor to connect to. When no URI is ever
    /// set, the library resolves a default at open time. The URI is
    /// validated here: one holding a nul byte is refused with
    /// [`Error::InvalidUri`] carrying the position of the first one, and
    /// the builder is left unchanged.
    pub fn uri(&mut self, uri: &str) -> (r: Result<(), Error>)
        ensures
            r is Ok <==> !has_nul(uri.spec_bytes()),
            r is Ok ==> (final(self).uri matches Some(c) && c@ == uri.spec_bytes()),
            r is Ok ==> final(self).flags == old(self).flags,
            r matches Err(e) ==> *final(self) == *old(self) && (e matches Error::InvalidUri(i)
                && 0 <= i < uri.spec_bytes().len() && uri.spec_bytes()[i as int] == 0
                && (forall|j: int| 0 <= j < i ==> uri.spec_bytes()[j] != 0)),
    {
        match CBytes::new(uri) {
            Ok(c) => {
                self.uri = Some(c);
                Ok(())
            },
            Err(i) => Err(Error::InvalidUri(i)),
        }
    }

    /// Sets whether the opened connection should be read-only. The other
    /// flag bits are left as they are.
    pub fn read_only(&mut self, read_only: bool)
        ensures
            final(self).uri == old(self).uri,
            is_read_only(final(self).flags) == read_only,
            is_no_aliases(final(self).flags) == is_no_aliases(old(self).flags),
    {
        let old_flags = self.flags;
        if read_only {
            self.flags = self.flags | VIR_CONNECT_RO;
        } else {
            self.flags = self.flags & !VIR_CONNECT_RO;
        }
        proof {
            let f = old_flags;
            assert((f | 1u32) & 1u32 != 0u32) by (bit_vector);
            assert((f & !1u32) & 1u32 == 0u32) by (bit_vector);
            assert((f | 1u32) & 2u32 == f & 2u32) by (bit_vector);
            assert((f & !1u32) & 2u32 == f & 2u32) by (bit_vector);
        }
    }

    /// Sets whether the opened connection should leave URI aliases
    /// unresolved. The other flag bits are left as they are.
    pub fn no_aliases(&mut self, no_aliases: bool)
        ensures
            final(self).uri == old(self).uri,
            is_no_aliases(final(self).flags) == no_aliases,
            is_read_only(final(self).flags) == is_read_only(old(self).flags),
    {
        let old_flags = self.flags;
        if no_aliases {
            self.flags = self.flags | VIR_CONNECT_NO_ALIASES;
        } else {
            self.flags = self.flags & !VIR_CONNECT_NO_ALIASES;
        }
        proof {
            let f = old_flags;
            assert((f | 2u32) & 2u32 != 0u32) by (bit_vector);
            assert((f & !2u32) & 2u32 == 0u32) by (bit_vector);
            assert((f | 2u32) & 1u32 == f & 1u32) by (bit_vector);
            assert((f & !2u32) & 1u32 == f & 1u32) by (bit_vector);
        }
    }
}

/// An owned handle to a hypervisor connection. The C object behind it is
/// reference-counted: every clone is an independent owner and owes one
/// close, performed through [`Connection::close`] or by the shell when
/// the owner is dropped.
#[derive(Debug)]
pub struct Connection {
    /// The pointer value of the C connection object, as a plain integer.
    pub handle: u64,
}

impl Wrapper for Connection {
    type Ptr = u64;

    open spec fn ptr_spec(&self) -> u64 {
        self.handle
    }

    fn from_ptr(ptr: u64) -> (r: Connection) {
        Connection { handle: ptr }
    }

    fn as_ptr(&self) -> (r: u64) {
        self.handle
    }
}

impl Connection {
    /// Returns a builder for [`Connection`]s.
    pub fn builder() -> (r: Builder)
        ensures
            r.uri is None,
            r.flags == 0,
    {
        Builder::default()
    }

    /// Takes over the pointer an open call returned. A null pointer means
    /// the open failed, and the error record the shell captured is handed
    /// through; any other value becomes an owned connection handle.
    pub fn from_open(ptr: u64, err: Option<VirtError>) -> (r: Result<Connection, VirtError>)
        requires
            ptr == 0 ==> err is Some,
        ensures
            r is Ok <==> ptr != 0,
            r matches Ok(c) ==> c.handle == ptr,
            ptr == 0 ==> r == Err::<Connection, VirtError>(err->0),
    {
        if ptr == 0 {
            Err(err.unwrap())
        } else {
            Ok(Connection { handle: ptr })
        }
    }

    /// Returns the system hostname of the machine running the hypervisor,
    /// from the outcome of the foreign hostname query: the bytes it
    /// returned, or the error captured when it failed. Bytes that are not
    /// valid UTF-8 are refused with [`Error::Utf8Error`].
    pub fn hostname(&self, raw: Result<Vec<u8>, VirtError>) -> (r: Result<String, Error>)
        ensures
            match raw {
                Err(e) => r == Err::<String, Error>(Error::VirtError(e)),
                Ok(b) => {
                    &&& (r is Ok <==> valid_utf8(b@))
                    &&& (valid_utf8(b@) ==> (r matches Ok(s) && s@ == decode_utf8(b@)))
                    &&& (!valid_utf8(b@) ==> r == Err::<String, Error>(Error::Utf8Error))
                },
            },
    {
        text_result(raw)
    }

    /// Returns the canonical URI of this connection, from the outcome of
    /// the foreign URI query, under the same rules as
    /// [`Connection::hostname`].
    pub fn uri(&self, raw: Result<Vec<u8>, VirtError>) -> (r: Result<String, Error>)
        ensures
            match raw {
                Err(e) => r == Err::<String, Error>(Error::VirtError(e)),
                Ok(b) => {
                    &&& (r is Ok <==> valid_utf8(b@))
                    &&& (valid_utf8(b@) ==> (r matches Ok(s) && s@ == decode_utf8(b@)))
                    &&& (!valid_utf8(b@) ==> r == Err::<String, Error>(Error::Utf8Error))
                },
            },
    {
        text_result(raw)
    }

    /// Returns the name of the hypervisor driver serving this connection,
    /// from the outcome of the foreign type query, under the same rules
    /// as [`Connection::hostname`].
    pub fn hypervisor_type(&self, raw: Result<Vec<u8>, VirtError>) -> (r: Result<String, Error>)
        ensures
            match raw {
                Err(e) => r == Err::<String, Error>(Error::VirtError(e)),
                Ok(b) => {
                    &&& (r is Ok <==> valid_utf8(b@))
                    &&& (valid_utf8(b@) ==> (r matches Ok(s) && s@ == decode_utf8(b@)))
                    &&& (!valid_utf8(b@) ==> r == Err::<String, Error>(Error::Utf8Error))
                },
            },
    {
        text_result(raw)
    }

    /// Returns the version of libvirt used by the hypervisor this
    /// connection is connected to, from the outcome of the foreign
    /// version query.
    pub fn lib_version(&self, raw: Result<u64, VirtError>) -> (r: Result<Version, VirtError>)
        ensures
            raw matches Ok(v) ==> r == Ok::<Version, VirtError>(spec_decode_version(v)),
            raw matches Err(e) ==> r == Err::<Version, VirtError>(e),
    {
        crate::version::lib_version(raw)
    }

    /// Returns the version of the hypervisor itself, from the outcome of
    /// the foreign query. The library reports zero when the hypervisor
    /// offers no version; that becomes `None`.
    pub fn hypervisor_version(&self, raw: Result<u64, VirtError>) -> (r: Result<
        Option<Version>,
        VirtError,
    >)
        ensures
            match raw {
                Err(e) => r == Err::<Option<Version>, VirtError>(e),
                Ok(v) => r == Ok::<Option<Version>, VirtError>(
                    if v == 0 {
                        None
                    } else {
                        Some(spec_decode_version(v))
                    },
                ),
            },
    {
        match raw {
            Err(e) => Err(e),
            Ok(v) => {
                if v == 0 {
                    Ok(None)
                } else {
                    Ok(Some(Version::from(v)))
                }
            },
        }
    }

    /// Validates a request to create a domain on this connection from an
    /// XML description. XML holding a nul byte is refused with
    /// [`Error::InvalidXml`]; otherwise everything the foreign create
    /// call needs is returned, ready for the shell.
    pub fn create_domain(&self, xml: &str, flags: CreateFlags) -> (r: Result<
        CreateDomainCall,
        Error,
    >)
        ensures
            r is Ok <==> !has_nul(xml.spec_bytes()),
            r matches Ok(c) ==> c.conn == self.handle && c.xml@ == xml.spec_bytes() && c.flags
                == flags.bits,
            r matches Err(e) ==> e matches Error::InvalidXml(i) && 0 <= i
                < xml.spec_bytes().len() && xml.spec_bytes()[i as int] == 0 && (forall|j: int|
                0 <= j < i ==> xml.spec_bytes()[j] != 0),
    {
        match CBytes::new(xml) {
            Ok(c) => Ok(CreateDomainCall { conn: self.handle, xml: c, flags: flags.bits }),
            Err(i) => Err(Error::InvalidXml(i)),
        }
    }

    /// Closes the connection, consuming this owner; the underlying C
    /// object goes away only when its last owner is closed or dropped.
    /// The shell has already performed the foreign close call on the
    /// handle and hands in the return code, with the error record
    /// captured when the call failed. Consuming `self` here is what keeps
    /// the drop path from performing a second close for this owner.
    pub fn close(self, ret: i32, err: Option<VirtError>) -> (r: Result<(), VirtError>)
        requires
            ret == -1 ==> err is Some,
        ensures
            r is Err <==> ret == -1,
            ret == -1 ==> r == Err::<(), VirtError>(err->0),
    {
        check_ret(ret, err)
    }
}

/// Shared translation for the string-valued queries: a library failure is
/// handed through, bytes are decoded as UTF-8 or refused.
fn text_result(raw: Result<Vec<u8>, VirtError>) -> (r: Result<String, Error>)
    ensures
        match raw {
            Err(e) => r == Err::<String, Error>(Error::VirtError(e)),
            Ok(b) => {
                &&& (r is Ok <==> valid_utf8(b@))
                &&& (valid_utf8(b@) ==> (r matches Ok(s) && s@ == decode_utf8(b@)))
                &&& (!valid_utf8(b@) ==> r == Err::<String, Error>(Error::Utf8Error))
            },
            },
{
    match raw {
        Err(e) => Err(Error::VirtError(e)),
        Ok(b) => match string_from_utf8(b) {
            Some(s) => Ok(s),
            None => Err(Error::Utf8Error),
        },
    }
}

} // verus!
