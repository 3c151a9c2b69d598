//! Domains (virtual machines): creation requests, device attachment,
//! renaming, destruction modes, and the owning handle.

use crate::cbytes::{has_nul, CBytes};
use crate::error::{check_ret, Error, VirtError};
use crate::wrapper::Wrapper;
use vstd::prelude::*;
use vstd::string::StringSliceAdditionalSpecFns;

verus! {

/// Domain creation flag bit: start the domain with its CPUs paused.
pub const VIR_DOMAIN_START_PAUSED: u32 = 1;

/// Domain creation flag bit: destroy the domain automatically when the
/// connection to the daemon is lost or its last owner goes away.
pub const VIR_DOMAIN_START_AUTODESTROY: u32 = 2;

/// Domain creation flag bit: avoid polluting the file system cache.
pub const VIR_DOMAIN_START_BYPASS_CACHE: u32 = 4;

/// Domain creation flag bit: boot, discarding any managed save.
pub const VIR_DOMAIN_START_FORCE_BOOT: u32 = 8;

/// Domain creation flag bit: validate the XML document against its schema.
pub const VIR_DOMAIN_START_VALIDATE: u32 = 16;

/// Device modification flag value: decide from the current domain state.
pub const VIR_DOMAIN_DEVICE_MODIFY_CURRENT: u32 = 0;

/// Device modification flag bit: affect the running domain only.
pub const VIR_DOMAIN_DEVICE_MODIFY_LIVE: u32 = 1;

/// Device modification flag bit: affect the persisted configuration only.
pub const VIR_DOMAIN_DEVICE_MODIFY_CONFIG: u32 = 2;

/// Device modification flag bit: force the device change.
pub const VIR_DOMAIN_DEVICE_MODIFY_FORCE: u32 = 4;

/// Destroy flag value: the default, forceful termination after a timeout.
pub const VIR_DOMAIN_DESTROY_DEFAULT: u32 = 0;

/// Destroy flag bit: only ever terminate gracefully.
pub const VIR_DOMAIN_DESTROY_GRACEFUL: u32 = 1;

/// Flags affecting the starting of transient domains: a union of the
/// domain creation flag bits.
#[derive(Debug, Clone, Copy, PartialEq, Eq, Structural)]
pub struct CreateFlags {
    /// The union of the chosen creation flag bits.
    pub bits: u32,
}

impl CreateFlags {
    /// No flag set.
    pub fn empty() -> (r: CreateFlags)
        ensures
            r.bits == 0,
    {
        CreateFlags { bits: 0 }
    }

    /// The flag that starts the domain with its CPUs paused; they can be
    /// started later with the resume operation.
    pub fn paused() -> (r: CreateFlags)
        ensures
            r.bits == VIR_DOMAIN_START_PAUSED,
    {
        CreateFlags { bits: VIR_DOMAIN_START_PAUSED }
    }

    /// The flag that destroys the domain automatically when the
    /// connection that created it goes away.
    pub fn autodestroy() -> (r: CreateFlags)
        ensures
            r.bits == VIR_DOMAIN_START_AUTODESTROY,
    {
        CreateFlags { bits: VIR_DOMAIN_START_AUTODESTROY }
    }

    /// The flag that avoids polluting the file system cache.
    pub fn bypass_cache() -> (r: CreateFlags)
        ensures
            r.bits == VIR_DOMAIN_START_BYPASS_CACHE,
    {
        CreateFlags { bits: VIR_DOMAIN_START_BYPASS_CACHE }
    }

    /// The flag that boots the domain, discarding any managed save.
    pub fn force_boot() -> (r: CreateFlags)
        ensures
            r.bits == VIR_DOMAIN_START_FORCE_BOOT,
    {
        CreateFlags { bits: VIR_DOMAIN_START_FORCE_BOOT }
    }

    /// The flag that validates the XML document against its schema.
    pub fn validate() -> (r: CreateFlags)
        ensures
            r.bits == VIR_DOMAIN_START_VALIDATE,
    {
        CreateFlags { bits: VIR_DOMAIN_START_VALIDATE }
    }

    /// The union of two flag sets.
    pub fn or(self, other: CreateFlags) -> (r: CreateFlags)
        ensures
            r.bits == self.bits | other.bits,
    {
        CreateFlags { bits: self.bits | other.bits }
    }

    /// True when every flag of `other` is set in `self`.
    pub fn contains(self, other: CreateFlags) -> (r: bool)
        ensures
            r == (self.bits & other.bits == other.bits),
    {
        self.bits & other.bits == other.bits
    }
}

/// Flags controlling how a device is attached to a domain: a union of the
/// device modification flag bits.
#[derive(Debug, Clone, Copy, PartialEq, Eq, Structural)]
pub struct DeviceModifyFlags {
    /// The union of the chosen modification flag bits.
    pub bits: u32,
}

impl DeviceModifyFlags {
    /// The allocation is decided from the current domain state.
    pub fn current() -> (r: DeviceModifyFlags)
        ensures
            r.bits == VIR_DOMAIN_DEVICE_MODIFY_CURRENT,
    {
        DeviceModifyFlags { bits: VIR_DOMAIN_DEVICE_MODIFY_CURRENT }
    }

    /// The flag that affects the running domain instance only.
    pub fn live() -> (r: DeviceModifyFlags)
        ensures
            r.bits == VIR_DOMAIN_DEVICE_MODIFY_LIVE,
    {
        DeviceModifyFlags { bits: VIR_DOMAIN_DEVICE_MODIFY_LIVE }
    }

    /// The flag that affects the persisted configuration only.
    pub fn config() -> (r: DeviceModifyFlags)
        ensures
            r.bits == VIR_DOMAIN_DEVICE_MODIFY_CONFIG,
    {
        DeviceModifyFlags { bits: VIR_DOMAIN_DEVICE_MODIFY_CONFIG }
    }

    /// The flag that forces the device change.
    pub fn force() -> (r: DeviceModifyFlags)
        ensures
            r.bits == VIR_DOMAIN_DEVICE_MODIFY_FORCE,
    {
        DeviceModifyFlags { bits: VIR_DOMAIN_DEVICE_MODIFY_FORCE }
    }

    /// The union of two flag sets.
    pub fn or(self, other: DeviceModifyFlags) -> (r: DeviceModifyFlags)
        ensures
            r.bits == self.bits | other.bits,
    {
        DeviceModifyFlags { bits: self.bits | other.bits }
    }

    /// True when every flag of `other` is set in `self`.
    pub fn contains(self, other: DeviceModifyFlags) -> (r: bool)
        ensures
            r == (self.bits & other.bits == other.bits),
    {
        self.bits & other.bits == other.bits
    }
}

/// Ways to handle the termination of a domain when destroying it.
#[derive(Debug, Clone, Copy, PartialEq, Eq, Structural)]
pub enum DestroyMode {
    /// Never forcefully kill the domain: when it does not shut down
    /// gracefully in a timely manner, the operation fails.
    Graceful,
    /// Kill the domain when it has not shut down gracefully a while after
    /// receiving the first shutdown signal.
    KillAfterTimeout,
}

impl DestroyMode {
    /// The destroy flag value the foreign destroy call takes for this
    /// mode.
    pub fn flags(&self) -> (r: u32)
        ensures
            self is Graceful ==> r == VIR_DOMAIN_DESTROY_GRACEFUL,
            self is KillAfterTimeout ==> r == VIR_DOMAIN_DESTROY_DEFAULT,
    {
        match self {
            DestroyMode::Graceful => VIR_DOMAIN_DESTROY_GRACEFUL,
            DestroyMode::KillAfterTimeout => VIR_DOMAIN_DESTROY_DEFAULT,
        }
    }
}

/// A validated request to create a domain: everything the shell must pass
/// to the foreign create call.
#[derive(Debug)]
pub struct CreateDomainCall {
    /// The handle of the connection to create the domain on.
    pub conn: u64,
    /// The XML description of the domain, validated for the C boundary.
    pub xml: CBytes,
    /// The creation flags, as a plain bit union.
    pub flags: u32,
}

/// A validated request to attach a device: everything the shell must pass
/// to the foreign attach call.
#[derive(Debug)]
pub struct AttachDeviceCall {
    /// The handle of the domain to attach the device to.
    pub dom: u64,
    /// The XML description of the device, validated for the C boundary.
    pub xml: CBytes,
    /// The modification flags, as a plain bit union.
    pub flags: u32,
}

/// A validated request to rename a domain: everything the shell must pass
/// to the foreign rename call.
#[derive(Debug)]
pub struct RenameCall {
    /// The handle of the domain to rename.
    pub dom: u64,
    /// The new name, validated for the C boundary.
    pub name: CBytes,
    /// The rename flags; the library takes none, so always zero.
    pub flags: u32,
}

/// An owned handle to a domain (a virtual machine). The C object behind
/// it is reference-counted exactly as a connection's is: every clone is
/// an independent owner and owes one free.
#[derive(Debug)]
pub struct Domain {
    /// The pointer value of the C domain object, as a plain integer.
    pub handle: u64,
}

impl Wrapper for Domain {
    type Ptr = u64;

    open spec fn ptr_spec(&self) -> u64 {
        self.handle
    }

    fn from_ptr(ptr: u64) -> (r: Domain) {
        Domain { handle: ptr }
    }

    fn as_ptr(&self) -> (r: u64) {
        self.handle
    }
}

impl Domain {
    /// Takes over the pointer the foreign create call returned. A null
    /// pointer means the creation failed, and the error record the shell
    /// captured is handed through; any other value becomes an owned
    /// domain handle.
    pub fn from_create(ptr: u64, err: Option<VirtError>) -> (r: Result<Domain, VirtError>)
        requires
            ptr == 0 ==> err is Some,
        ensures
            r is Ok <==> ptr != 0,
            r matches Ok(d) ==> d.handle == ptr,
            ptr == 0 ==> r == Err::<Domain, VirtError>(err->0),
    {
        if ptr == 0 {
            Err(err.unwrap())
        } else {
            Ok(Domain { handle: ptr })
        }
    }

    /// Validates a request to attach a virtual device to this domain,
    /// described by XML. XML holding a nul byte is refused with
    /// [`Error::InvalidXml`]; otherwise everything the foreign attach
    /// call needs is returned, ready for the shell.
    pub fn attach_device(&self, xml: &str, flags: DeviceModifyFlags) -> (r: Result<
        AttachDeviceCall,
        Error,
    >)
        ensures
            r is Ok <==> !has_nul(xml.spec_bytes()),
            r matches Ok(c) ==> c.dom == self.handle && c.xml@ == xml.spec_bytes() && c.flags
                == flags.bits,
            r matches Err(e) ==> e matches Error::InvalidXml(i) && 0 <= i
                < xml.spec_bytes().len() && xml.spec_bytes()[i as int] == 0 && (forall|j: int|
                0 <= j < i ==> xml.spec_bytes()[j] != 0),
    {
        match CBytes::new(xml) {
            Ok(c) => Ok(AttachDeviceCall { dom: self.handle, xml: c, flags: flags.bits }),
            Err(i) => Err(Error::InvalidXml(i)),
        }
    }

    /// Validates a request to rename this domain. A name holding a nul
    /// byte is refused with [`Error::InvalidName`]; otherwise everything
    /// the foreign rename call needs is returned, ready for the shell.
    pub fn rename(&self, new_name: &str) -> (r: Result<RenameCall, Error>)
        ensures
            r is Ok <==> !has_nul(new_name.spec_bytes()),
            r matches Ok(c) ==> c.dom == self.handle && c.name@ == new_name.spec_bytes()
                && c.flags == 0,
            r matches Err(e) ==> e matches Error::InvalidName(i) && 0 <= i
                < new_name.spec_bytes().len() && new_name.spec_bytes()[i as int] == 0
                && (forall|j: int| 0 <= j < i ==> new_name.spec_bytes()[j] != 0),
    {
        match CBytes::new(new_name) {
            Ok(c) => Ok(RenameCall { dom: self.handle, name: c, flags: 0 }),
            Err(i) => Err(Error::InvalidName(i)),
        }
    }

    /// Frees this owner of the domain object, consuming it; the running
    /// instance is kept alive, and the C object goes away only when its
    /// last owner is freed or dropped. The shell has already performed
    /// the foreign free call on the handle and hands in the return code,
    /// with the error record captured when the call failed. Consuming
    /// `self` here is what keeps the drop path from performing a second
    /// free for this owner.
    pub fn free(self, ret: i32, err: Option<VirtError>) -> (r: Result<(), VirtError>)
        requires
            ret == -1 ==> err is Some,
        ensures
            r is Err <==> ret == -1,
            ret == -1 ==> r == Err::<(), VirtError>(err->0),
    {
        check_ret(ret, err)
    }
}

} // verus!
