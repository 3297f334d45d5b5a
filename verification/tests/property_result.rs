use pci_info::{cast_failure, PciInfoError, PciInfoPropertyError, PropertyResult};

fn is_unsupported<T>(p: &PropertyResult<T>) -> bool {
    matches!(p.as_result_ref(), Err(PciInfoPropertyError::Unsupported))
}

fn failure<T>(p: &PropertyResult<T>) -> &PciInfoError {
    match p.as_result_ref() {
        Err(PciInfoPropertyError::Error(e)) => e,
        Err(PciInfoPropertyError::Unsupported) => panic!("unsupported"),
        Ok(_) => panic!("present"),
    }
}

#[test]
fn property_never_set_reads_as_unsupported() {
    let p: PropertyResult<u8> = PropertyResult::default();
    assert!(is_unsupported(&p));
    assert!(matches!(p.as_result(), Err(PciInfoPropertyError::Unsupported)));
    assert_eq!(p.as_option(), None);
    assert!(!p.eq_val(&0));
}

#[test]
fn property_set_value_reads_back() {
    let mut p: PropertyResult<u16> = PropertyResult::default();
    p.set_val(0x1234);
    assert_eq!(p.as_result().unwrap(), 0x1234);
    assert_eq!(p.as_option(), Some(&0x1234));
    assert_eq!(p.as_result_ref().unwrap(), &0x1234);
    assert!(p.eq_val(&0x1234));
    assert!(!p.eq_val(&0x1235));
    p.set_val(7);
    assert_eq!(p.as_result().unwrap(), 7);
}

#[test]
fn property_set_error_reads_as_failed() {
    let mut p: PropertyResult<u16> = PropertyResult::with_val(3);
    p.set_err(PciInfoError::UnexpectedEof);
    assert!(matches!(failure(&p), PciInfoError::UnexpectedEof));
    assert_eq!(p.as_option(), None);
    assert!(!p.eq_val(&3));
    p.set_val(4);
    assert_eq!(p.as_result().unwrap(), 4);
    p.set_empty();
    assert!(is_unsupported(&p));
}

#[test]
fn property_constructors() {
    let p = PropertyResult::with_val(9u8);
    assert_eq!(p.as_result().unwrap(), 9);
    let p: PropertyResult<u8> = PropertyResult::with_err(PciInfoError::UnknownPciHeaderType(5));
    assert!(matches!(failure(&p), PciInfoError::UnknownPciHeaderType(5)));
    let p: PropertyResult<u8> = PropertyResult::with_res(Ok(1));
    assert_eq!(p.as_result().unwrap(), 1);
    let p: PropertyResult<u8> = PropertyResult::with_res(Err(PciInfoError::UnexpectedEof));
    assert!(matches!(failure(&p), PciInfoError::UnexpectedEof));
}

#[test]
fn property_set_from_result() {
    let mut p: PropertyResult<u8> = PropertyResult::default();
    p.set_res(Ok(5));
    assert_eq!(p.as_result().unwrap(), 5);
    p.set_res(Err(PciInfoError::DevicesChangedTooManyTimes));
    assert!(matches!(failure(&p), PciInfoError::DevicesChangedTooManyTimes));
}

#[test]
fn property_checked_cast_keeps_values_that_fit() {
    let mut p: PropertyResult<u8> = PropertyResult::default();
    p.set_res_cast(Ok(0u32));
    assert_eq!(p.as_result().unwrap(), 0);
    p.set_res_cast(Ok(255u32));
    assert_eq!(p.as_result().unwrap(), 255);
    let mut q: PropertyResult<u16> = PropertyResult::default();
    q.set_res_cast(Ok(65535u64));
    assert_eq!(q.as_result().unwrap(), 65535);
}

#[test]
fn property_checked_cast_fails_on_values_that_do_not_fit() {
    let mut p: PropertyResult<u8> = PropertyResult::with_val(1);
    p.set_res_cast(Ok(256u32));
    match failure(&p) {
        PciInfoError::ParseError(s) => {
            assert_eq!(s.as_str(), "Value 256 cannot fit into 1 bytes")
        }
        other => panic!("unexpected error: {other:?}"),
    }
    assert_eq!(p.as_option(), None);
    let mut q: PropertyResult<u16> = PropertyResult::default();
    q.set_res_cast(Ok(-1i32));
    match failure(&q) {
        PciInfoError::ParseError(s) => {
            assert_eq!(s.as_str(), "Value -1 cannot fit into 2 bytes")
        }
        other => panic!("unexpected error: {other:?}"),
    }
    let mut r: PropertyResult<u8> = PropertyResult::default();
    r.set_res_cast(Ok(u32::MAX));
    assert!(matches!(failure(&r), PciInfoError::ParseError(_)));
}

#[test]
fn property_checked_cast_stores_an_error_as_it_is() {
    let mut p: PropertyResult<u8> = PropertyResult::with_val(1);
    p.set_res_cast::<u32>(Err(PciInfoError::IoKitError(-3)));
    assert!(matches!(failure(&p), PciInfoError::IoKitError(-3)));
}

#[test]
fn cast_failure_names_value_and_width() {
    match cast_failure("70000", 2) {
        PciInfoError::ParseError(s) => {
            assert_eq!(s.as_str(), "Value 70000 cannot fit into 2 bytes")
        }
        other => panic!("unexpected error: {other:?}"),
    }
    match cast_failure("", 0) {
        PciInfoError::ParseError(s) => assert_eq!(s.as_str(), "Value  cannot fit into 0 bytes"),
        other => panic!("unexpected error: {other:?}"),
    }
    match cast_failure("x", 1234567890) {
        PciInfoError::ParseError(s) => {
            assert_eq!(s.as_str(), "Value x cannot fit into 1234567890 bytes")
        }
        other => panic!("unexpected error: {other:?}"),
    }
}

#[test]
fn property_deref_of_a_string() {
    let p = PropertyResult::with_val(String::from("ahci"));
    assert_eq!(p.as_result_deref().unwrap(), "ahci");
    let q: PropertyResult<String> = PropertyResult::default();
    assert!(matches!(q.as_result_deref(), Err(PciInfoPropertyError::Unsupported)));
}

#[test]
fn property_text() {
    assert_eq!(format!("{:?}", PropertyResult::with_val(0x2Au8)), "2A");
    assert_eq!(format!("{:?}", PropertyResult::with_val(0x2Au16)), "002A");
    assert_eq!(format!("{:?}", PropertyResult::with_val(Some(0xBEEFu16))), "BEEF");
    assert_eq!(format!("{:?}", PropertyResult::with_val(None::<u16>)), "none");
    assert_eq!(format!("{:?}", PropertyResult::<u8>::default()), "n/a");
    assert_eq!(
        format!("{:?}", PropertyResult::<u8>::with_err(PciInfoError::UnexpectedEof)),
        "ERROR"
    );
    assert_eq!(PropertyResult::with_val(0u8).to_text(), "00");
    assert_eq!(PropertyResult::with_val(0xFFFFu16).to_text(), "FFFF");
}
