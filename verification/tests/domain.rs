use virt::domain::{
    AttachDeviceCall, CreateDomainCall, CreateFlags, DestroyMode, DeviceModifyFlags, RenameCall,
    VIR_DOMAIN_DESTROY_DEFAULT, VIR_DOMAIN_DESTROY_GRACEFUL, VIR_DOMAIN_START_PAUSED,
    VIR_DOMAIN_START_VALIDATE,
};
use virt::error::VirtError;
use virt::{Connection, Domain, Error, Wrapper};

fn virt_error(message: &str) -> VirtError {
    VirtError { code: 1, domain: 0, level: 2, message: message.to_string() }
}

#[test]
fn create_domain_builds_validated_call() {
    let c = Connection::from_ptr(42);
    let call: CreateDomainCall =
        c.create_domain("<domain><name>d</name></domain>", CreateFlags::paused()).unwrap();
    assert_eq!(call.conn, 42);
    assert_eq!(call.xml.as_bytes(), &b"<domain><name>d</name></domain>".to_vec());
    assert_eq!(call.flags, VIR_DOMAIN_START_PAUSED);
}

#[test]
fn create_domain_refuses_nul_in_xml() {
    let c = Connection::from_ptr(42);
    let r = c.create_domain("<dom\0ain/>", CreateFlags::empty());
    assert!(matches!(r, Err(Error::InvalidXml(4))));
}

#[test]
fn create_flags_union_and_containment() {
    let f = CreateFlags::paused().or(CreateFlags::validate());
    assert_eq!(f.bits, VIR_DOMAIN_START_PAUSED | VIR_DOMAIN_START_VALIDATE);
    assert!(f.contains(CreateFlags::paused()));
    assert!(f.contains(CreateFlags::validate()));
    assert!(!f.contains(CreateFlags::autodestroy()));
    assert_eq!(CreateFlags::empty().bits, 0);
    assert_eq!(CreateFlags::autodestroy().bits, 2);
    assert_eq!(CreateFlags::bypass_cache().bits, 4);
    assert_eq!(CreateFlags::force_boot().bits, 8);
    assert_eq!(CreateFlags::validate().bits, 16);
}

#[test]
fn device_modify_flags_union_and_containment() {
    let f = DeviceModifyFlags::live().or(DeviceModifyFlags::config());
    assert_eq!(f.bits, 3);
    assert!(f.contains(DeviceModifyFlags::live()));
    assert!(!f.contains(DeviceModifyFlags::force()));
    assert_eq!(DeviceModifyFlags::current().bits, 0);
    assert_eq!(DeviceModifyFlags::force().bits, 4);
}

#[test]
fn attach_device_builds_validated_call() {
    let d = Domain::from_ptr(9);
    let call: AttachDeviceCall =
        d.attach_device("<disk type='file'/>", DeviceModifyFlags::live()).unwrap();
    assert_eq!(call.dom, 9);
    assert_eq!(call.xml.as_bytes(), &b"<disk type='file'/>".to_vec());
    assert_eq!(call.flags, 1);
}

#[test]
fn attach_device_refuses_nul_in_xml() {
    let d = Domain::from_ptr(9);
    let r = d.attach_device("\0<disk/>", DeviceModifyFlags::current());
    assert!(matches!(r, Err(Error::InvalidXml(0))));
}

#[test]
fn rename_builds_validated_call_with_zero_flags() {
    let d = Domain::from_ptr(9);
    let call: RenameCall = d.rename("new-name").unwrap();
    assert_eq!(call.dom, 9);
    assert_eq!(call.name.as_bytes(), &b"new-name".to_vec());
    assert_eq!(call.flags, 0);
}

#[test]
fn rename_refuses_nul_in_name() {
    let d = Domain::from_ptr(9);
    let r = d.rename("bad\0name");
    assert!(matches!(r, Err(Error::InvalidName(3))));
}

#[test]
fn destroy_mode_maps_to_destroy_flags() {
    assert_eq!(DestroyMode::Graceful.flags(), VIR_DOMAIN_DESTROY_GRACEFUL);
    assert_eq!(DestroyMode::KillAfterTimeout.flags(), VIR_DOMAIN_DESTROY_DEFAULT);
}

#[test]
fn from_create_wraps_nonnull_pointer() {
    let d = Domain::from_create(0x88, None).unwrap();
    assert_eq!(d.handle, 0x88);
}

#[test]
fn from_create_hands_error_through_for_null() {
    let e = Domain::from_create(0, Some(virt_error("create failed"))).unwrap_err();
    assert_eq!(e.message, "create failed");
}

#[test]
fn free_translates_return_codes() {
    let d = Domain::from_ptr(5);
    assert!(d.free(0, None).is_ok());
    let d = Domain::from_ptr(5);
    let e = d.free(-1, Some(virt_error("free failed"))).unwrap_err();
    assert_eq!(e.message, "free failed");
}
