use virt::connection::{Builder, VIR_CONNECT_NO_ALIASES, VIR_CONNECT_RO};
use virt::error::VirtError;
use virt::{Connection, Error, Version, Wrapper};

fn virt_error(message: &str) -> VirtError {
    VirtError { code: 1, domain: 0, level: 2, message: message.to_string() }
}

#[test]
fn builder_starts_empty() {
    let b = Connection::builder();
    assert!(b.uri.is_none());
    assert_eq!(b.flags, 0);
}

#[test]
fn uri_with_nul_yields_local_validation_error() {
    let mut b = Connection::builder();
    let r = b.uri("qemu:///sys\0tem");
    assert!(matches!(r, Err(Error::InvalidUri(11))));
    // The failing call leaves the builder untouched: no library error is
    // involved at all.
    assert!(b.uri.is_none());
    assert_eq!(b.flags, 0);
}

#[test]
fn uri_without_nul_is_accepted() {
    let mut b = Connection::builder();
    b.uri("qemu:///system").unwrap();
    let stored = b.uri.as_ref().unwrap();
    assert_eq!(stored.as_bytes(), &b"qemu:///system".to_vec());
}

#[test]
fn read_only_sets_and_clears_its_bit() {
    let mut b = Builder::default();
    b.read_only(true);
    assert_eq!(b.flags, VIR_CONNECT_RO);
    b.no_aliases(true);
    assert_eq!(b.flags, VIR_CONNECT_RO | VIR_CONNECT_NO_ALIASES);
    b.read_only(false);
    assert_eq!(b.flags, VIR_CONNECT_NO_ALIASES);
    b.no_aliases(false);
    assert_eq!(b.flags, 0);
}

#[test]
fn from_open_wraps_nonnull_pointer() {
    let c = Connection::from_open(0x1234, None).unwrap();
    assert_eq!(c.handle, 0x1234);
}

#[test]
fn from_open_hands_error_through_for_null() {
    let e = Connection::from_open(0, Some(virt_error("open failed"))).unwrap_err();
    assert_eq!(e.message, "open failed");
}

#[test]
fn close_translates_return_codes() {
    let c = Connection::from_open(7, None).unwrap();
    assert!(c.close(0, None).is_ok());
    let c = Connection::from_open(7, None).unwrap();
    let e = c.close(-1, Some(virt_error("close failed"))).unwrap_err();
    assert_eq!(e.message, "close failed");
}

#[test]
fn hostname_decodes_utf8_bytes() {
    let c = Connection::from_ptr(7);
    let r = c.hostname(Ok(b"myhost.example".to_vec()));
    assert_eq!(r.unwrap(), "myhost.example");
}

#[test]
fn hostname_refuses_invalid_utf8() {
    let c = Connection::from_ptr(7);
    let r = c.hostname(Ok(vec![0xff, 0xfe, 0x00]));
    assert!(matches!(r, Err(Error::Utf8Error)));
}

#[test]
fn hostname_hands_library_error_through() {
    let c = Connection::from_ptr(7);
    let r = c.hostname(Err(virt_error("no hostname")));
    match r {
        Err(Error::VirtError(e)) => assert_eq!(e.message, "no hostname"),
        other => panic!("unexpected result: {:?}", other.map(|_| ())),
    }
}

#[test]
fn uri_decodes_utf8_bytes() {
    let c = Connection::from_ptr(7);
    let r = c.uri(Ok(b"qemu:///system".to_vec()));
    assert_eq!(r.unwrap(), "qemu:///system");
}

#[test]
fn hypervisor_type_decodes_utf8_bytes() {
    let c = Connection::from_ptr(7);
    let r = c.hypervisor_type(Ok(b"QEMU".to_vec()));
    assert_eq!(r.unwrap(), "QEMU");
}

#[test]
fn connection_lib_version_decodes() {
    let c = Connection::from_ptr(7);
    let r = c.lib_version(Ok(5004000));
    assert_eq!(r.unwrap(), Version { major: 5, minor: 4, release: 0 });
}

#[test]
fn hypervisor_version_zero_means_none() {
    let c = Connection::from_ptr(7);
    assert_eq!(c.hypervisor_version(Ok(0)).unwrap(), None);
    assert_eq!(
        c.hypervisor_version(Ok(4001002)).unwrap(),
        Some(Version { major: 4, minor: 1, release: 2 })
    );
    let e = c.hypervisor_version(Err(virt_error("gone"))).unwrap_err();
    assert_eq!(e.message, "gone");
}

#[test]
fn wrapper_round_trips_pointer_value() {
    let c = Connection::from_ptr(99);
    assert_eq!(c.as_ptr(), 99);
    assert_eq!(c.handle, 99);
}
