use pci_info::{PciInfoError, PciLocation};

#[test]
fn bdf_validation() {
    assert!(PciLocation::with_bdf(0, 0, 0).is_ok());
    assert!(PciLocation::with_bdf(0, 31, 7).is_ok());
    assert!(PciLocation::with_bdf(0, 32, 0).is_err());
    assert!(PciLocation::with_bdf(0, 0, 8).is_err());
}

#[test]
fn bdf_out_of_range_reports_the_triplet() {
    match PciLocation::with_bdf(3, 32, 1) {
        Err(PciInfoError::BdfLocationOutOfRange(3, 32, 1)) => {}
        other => panic!("unexpected result: {other:?}"),
    }
    match PciLocation::with_segment(9, 4, 2, 8) {
        Err(PciInfoError::BdfLocationOutOfRange(4, 2, 8)) => {}
        other => panic!("unexpected result: {other:?}"),
    }
}

#[test]
fn bdf_components_are_kept() {
    let l = PciLocation::with_segment(0x12, 0xAB, 31, 7).unwrap();
    assert_eq!(l.segment(), 0x12);
    assert_eq!(l.bus(), 0xAB);
    assert_eq!(l.device(), 31);
    assert_eq!(l.function(), 7);
    assert_eq!(l.bus_number().segment(), 0x12);
    assert_eq!(l.bus_number().bus(), 0xAB);
}

#[test]
fn bdf_from_u16_splits_bus_device_function() {
    let l = PciLocation::with_bdf_u16(0x1FA5);
    assert_eq!(l.segment(), 0);
    assert_eq!(l.bus(), 0x1F);
    assert_eq!(l.device(), 0xA5 >> 3);
    assert_eq!(l.function(), 5);
    let m = PciLocation::with_bdf_u16(0xFFFF);
    assert_eq!((m.bus(), m.device(), m.function()), (255, 31, 7));
}

#[test]
fn location_text_is_hexadecimal() {
    let l = PciLocation::with_segment(0x1, 0x2A, 0x1F, 3).unwrap();
    assert_eq!(format!("{l}"), "0001:2A:1F.3");
    assert_eq!(format!("{l:?}"), "0001:2A:1F.3");
    assert_eq!(l.to_text(), "0001:2A:1F.3");
    assert_eq!(format!("{}", l.bus_number()), "0001:2A");
    assert_eq!(format!("{:?}", l.bus_number()), "0001:2A");
}
