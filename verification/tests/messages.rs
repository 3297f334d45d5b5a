use pci_info::{
    PciBusNumber, PciDeviceEnumerationError, PciDeviceEnumerationErrorImpact, PciInfoError,
    PciInfoPropertyError, PciLocation,
};

#[test]
fn error_messages() {
    assert_eq!(
        PciInfoError::ParseError("bad".into()).to_string(),
        "error while parsing value: bad"
    );
    assert_eq!(
        PciInfoError::from_io_error_kind(std::io::ErrorKind::NotFound).to_string(),
        format!("i/o error: {}", std::io::ErrorKind::NotFound)
    );
    assert_eq!(PciInfoError::UnexpectedEof.to_string(), "unexpected eof while reading data");
    assert_eq!(
        PciInfoError::ValueNotFound(None).to_string(),
        "the expected value was not found"
    );
    assert_eq!(
        PciInfoError::ValueNotFound(Some("vendor-id".into())).to_string(),
        "the expected value for 'vendor-id' was not found"
    );
    assert_eq!(
        PciInfoError::InconsistentValue(vec!["5".to_string(), "a\"b".to_string()]).to_string(),
        "an inconsistent value was read; considered values were: [\"5\", \"a\\\"b\"]"
    );
    assert_eq!(PciInfoError::WMIError("denied".into()).to_string(), "WMI error: denied");
    assert_eq!(PciInfoError::IoKitError(5).to_string(), "IOKit error 5");
    assert_eq!(PciInfoError::IoKitError(0).to_string(), "IOKit error 0");
    assert_eq!(PciInfoError::IoKitError(-536870212).to_string(), "IOKit error -536870212");
    assert_eq!(PciInfoError::IoKitError(i32::MIN).to_string(), "IOKit error -2147483648");
    assert_eq!(PciInfoError::IoKitError(i32::MAX).to_string(), "IOKit error 2147483647");
    assert_eq!(
        PciInfoError::BdfLocationOutOfRange(0xAB, 32, 8).to_string(),
        "the PCI location (AB:20.08 has out of range components"
    );
    assert_eq!(
        PciInfoError::NoDefaultPciEnumeratorForPlatform.to_string(),
        "this platform does not support a default PCI enumerator"
    );
    assert_eq!(
        PciInfoError::UnknownPciHeaderType(0x7).to_string(),
        "unknown PCI header type 0x07"
    );
    assert_eq!(
        PciInfoError::UnknownPciHeaderType(0xFF).to_string(),
        "unknown PCI header type 0xFF"
    );
    assert_eq!(
        PciInfoError::EnumerationInterrupted("stop".into()).to_string(),
        "the enumeration has been interrupted: stop"
    );
    assert_eq!(
        PciInfoError::DevicesChangedTooManyTimes.to_string(),
        "the list of PCI devices changed too many times"
    );
}

#[test]
fn error_message_is_what_display_shows() {
    let e = PciInfoError::ValueNotFound(Some("x".into()));
    assert_eq!(e.message(), format!("{e}"));
    let c = e.clone();
    assert_eq!(c.message(), e.message());
    let e = PciInfoError::InconsistentValue(vec!["1".to_string(), "2".to_string()]);
    assert_eq!(e.clone().message(), e.message());
}

#[test]
fn property_error_messages() {
    assert_eq!(PciInfoPropertyError::Unsupported.to_string(), "unsupported by current enumerator");
    assert_eq!(
        PciInfoPropertyError::Error(Box::new(PciInfoError::UnexpectedEof)).to_string(),
        "unexpected eof while reading data"
    );
    assert_eq!(PciInfoPropertyError::Unsupported.message(), "unsupported by current enumerator");
}

#[test]
fn enumeration_error_messages() {
    let e = PciDeviceEnumerationError::new(
        PciDeviceEnumerationErrorImpact::Bus,
        PciInfoError::UnexpectedEof,
    );
    assert_eq!(e.to_string(), "pci bus enumeration error: unexpected eof while reading data");
    let e = PciDeviceEnumerationError::new_at_bus(
        PciBusNumber::with_segment(1, 0x2A),
        PciDeviceEnumerationErrorImpact::Device,
        PciInfoError::UnknownPciHeaderType(3),
    );
    assert_eq!(
        e.to_string(),
        "pci device enumeration error at 0001:2A : unknown PCI header type 0x03"
    );
    let e = PciDeviceEnumerationError::new_at_device(
        PciLocation::with_bdf(0, 31, 7).unwrap(),
        PciDeviceEnumerationErrorImpact::DeviceProperties,
        PciInfoError::ParseError("x".into()),
    );
    assert_eq!(
        e.to_string(),
        "an error might have caused properties to be missing from a pci device at 0000:00:1F.7 : \
         error while parsing value: x"
    );
    assert_eq!(e.message(), e.to_string());
}

#[test]
fn errors_are_std_errors() {
    fn takes(_: &dyn std::error::Error) {}
    takes(&PciInfoError::UnexpectedEof);
    takes(&PciInfoPropertyError::Unsupported);
    takes(&PciDeviceEnumerationError::new(
        PciDeviceEnumerationErrorImpact::Bus,
        PciInfoError::UnexpectedEof,
    ));
}

#[test]
fn io_errors_keep_their_kind() {
    fn fails() -> Result<(), PciInfoError> {
        Err(std::io::Error::new(std::io::ErrorKind::PermissionDenied, "no"))?;
        Ok(())
    }
    match fails() {
        Err(PciInfoError::IoError(kind)) => assert_eq!(*kind, std::io::ErrorKind::PermissionDenied),
        other => panic!("unexpected result: {other:?}"),
    }
    let e: PciInfoError = std::io::Error::from(std::io::ErrorKind::UnexpectedEof).into();
    match e {
        PciInfoError::IoError(kind) => assert_eq!(*kind, std::io::ErrorKind::UnexpectedEof),
        other => panic!("unexpected error: {other:?}"),
    }
    match PciInfoError::from_io_error_kind(std::io::ErrorKind::NotFound).clone() {
        PciInfoError::IoError(kind) => assert_eq!(*kind, std::io::ErrorKind::NotFound),
        other => panic!("unexpected error: {other:?}"),
    }
}
