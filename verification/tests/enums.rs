use pci_info::pci_enums::{PciDeviceClass, PciDeviceSubclass};

#[test]
fn subclass_of_named_codes() {
    assert_eq!(PciDeviceSubclass::from_codes(0x00, 0x00), PciDeviceSubclass::Unclassified_Generic);
    assert_eq!(
        PciDeviceSubclass::from_codes(0x01, 0x06),
        PciDeviceSubclass::MassStorageController_SerialAta
    );
    assert_eq!(PciDeviceSubclass::from_codes(0x02, 0x80), PciDeviceSubclass::NetworkController_Other);
    assert_eq!(
        PciDeviceSubclass::from_codes(0x03, 0x00),
        PciDeviceSubclass::DisplayController_VgaCompatible
    );
    assert_eq!(PciDeviceSubclass::from_codes(0x06, 0x01), PciDeviceSubclass::Bridge_IsaBridge);
    assert_eq!(PciDeviceSubclass::from_codes(0x0C, 0x03), PciDeviceSubclass::SerialBusController_USB);
    assert_eq!(
        PciDeviceSubclass::from_codes(0x12, 0x01),
        PciDeviceSubclass::ProcessingAccelerator_SniaSdxiController
    );
}

#[test]
fn subclass_of_unknown_codes() {
    assert_eq!(
        PciDeviceSubclass::from_codes(0x00, 0x02),
        PciDeviceSubclass::Unclassified_Unknown(0x02)
    );
    assert_eq!(
        PciDeviceSubclass::from_codes(0x13, 0xFF),
        PciDeviceSubclass::NonEssentialInstrumentation_Unknown(0xFF)
    );
    assert_eq!(PciDeviceSubclass::from_codes(0x14, 0x00), PciDeviceSubclass::Unknown(0x14, 0x00));
    assert_eq!(PciDeviceSubclass::from_codes(0xFF, 0xFF), PciDeviceSubclass::Unknown(0xFF, 0xFF));
}

#[test]
fn subclass_codes_round_trip() {
    for c in 0..=255u8 {
        for s in 0..=255u8 {
            let v = PciDeviceSubclass::from_codes(c, s);
            assert_eq!(v.as_codes(), (c, s));
            assert_eq!(u8::from(v), s);
            assert_eq!(PciDeviceSubclass::from_codes(v.as_codes().0, v.as_codes().1), v);
            match v {
                PciDeviceSubclass::Unknown(uc, us) => {
                    assert!(c > 0x13);
                    assert_eq!((uc, us), (c, s));
                }
                _ => assert!(c <= 0x13),
            }
        }
    }
}

#[test]
fn subclass_codes_of_unknown_variants_are_what_they_hold() {
    assert_eq!(PciDeviceSubclass::Unclassified_Unknown(0).as_codes(), (0, 0));
    assert_eq!(PciDeviceSubclass::Bridge_Unknown(0x55).as_codes(), (0x06, 0x55));
    assert_eq!(PciDeviceSubclass::Unknown(1, 2).as_codes(), (1, 2));
}

#[test]
fn class_of_codes() {
    assert_eq!(PciDeviceClass::from_code(0x00), PciDeviceClass::Unclassified);
    assert_eq!(PciDeviceClass::from_code(0x01), PciDeviceClass::MassStorageController);
    assert_eq!(PciDeviceClass::from_code(0x06), PciDeviceClass::Bridge);
    assert_eq!(PciDeviceClass::from_code(0x0C), PciDeviceClass::SerialBusController);
    assert_eq!(PciDeviceClass::from_code(0x13), PciDeviceClass::NonEssentialInstrumentation);
    assert_eq!(PciDeviceClass::from_code(0x14), PciDeviceClass::Unknown(0x14));
    assert_eq!(PciDeviceClass::from_code(0xFF), PciDeviceClass::Unknown(0xFF));
    assert_eq!(PciDeviceClass::Unknown(3).as_code(), 3);
}

#[test]
fn class_codes_round_trip() {
    for c in 0..=255u8 {
        let v = PciDeviceClass::from_code(c);
        assert_eq!(v.as_code(), c);
        assert_eq!(u8::from(v), c);
        assert_eq!(matches!(v, PciDeviceClass::Unknown(_)), c > 0x13);
        let s = PciDeviceSubclass::from_codes(c, 0);
        if c <= 0x13 {
            assert!(format!("{s:?}").starts_with(&format!("{v:?}_")));
        }
    }
}

#[test]
fn subclass_names() {
    assert_eq!(PciDeviceSubclass::Bridge_IsaBridge.to_name(), "Bridge_IsaBridge");
    assert_eq!(PciDeviceSubclass::Unclassified_Generic.to_name(), "Unclassified_Generic");
    assert_eq!(PciDeviceSubclass::Bridge_Unknown(0x55).to_name(), "Bridge_Unknown(85)");
    assert_eq!(PciDeviceSubclass::Unclassified_Unknown(0).to_name(), "Unclassified_Unknown(0)");
    assert_eq!(PciDeviceSubclass::Unknown(255, 7).to_name(), "Unknown(255, 7)");
    for c in 0..=255u8 {
        for s in 0..=255u8 {
            let v = PciDeviceSubclass::from_codes(c, s);
            assert_eq!(v.to_name(), format!("{v:?}"));
        }
    }
}

#[test]
fn class_names() {
    assert_eq!(PciDeviceClass::Bridge.to_name(), "Bridge");
    assert_eq!(PciDeviceClass::Unknown(200).to_name(), "Unknown(200)");
    assert_eq!(PciDeviceClass::Unknown(0).to_name(), "Unknown(0)");
    for c in 0..=255u8 {
        let v = PciDeviceClass::from_code(c);
        assert_eq!(v.to_name(), format!("{v:?}"));
    }
}
