use pci_info::enumerators::windows::common::ConflictOption;
use pci_info::enumerators::windows::setupapi::{
    device_entry_from_ids, enumerate_device, is_pci_instance_id, location_from_property,
    parse_pci_location, parse_windows_id, RegistryProperty, REG_BINARY,
    REG_DWORD_BIG_ENDIAN, REG_DWORD_LITTLE_ENDIAN, REG_EXPAND_SZ, REG_MULTI_SZ, REG_NONE, REG_SZ,
};
use pci_info::enumerators::windows::wmi::{read_device_from_wmi_properties, WmiValue};
use pci_info::{PciInfoError, PciLocation};

fn utf16le(units: &[u16]) -> Vec<u8> {
    units.iter().flat_map(|u| u.to_le_bytes()).collect()
}

fn text_units(s: &str) -> Vec<u16> {
    s.encode_utf16().collect()
}

fn windows_parse_message(e: &PciInfoError) -> String {
    match e {
        PciInfoError::ParseError(s) => s.as_str().to_string(),
        other => panic!("not a parse error: {other:?}"),
    }
}

fn strings(v: &[&str]) -> Vec<String> {
    v.iter().map(|s| s.to_string()).collect()
}

#[test]
fn registry_text() {
    let mut units = text_units("PCI\\VEN_8086");
    units.push(0);
    units.extend(text_units("junk"));
    match RegistryProperty::from_sz(utf16le(&units)) {
        RegistryProperty::String(s) => assert_eq!(s, "PCI\\VEN_8086"),
        other => panic!("unexpected property: {other:?}"),
    }
    match RegistryProperty::from_sz(utf16le(&text_units("no end"))) {
        RegistryProperty::String(s) => assert_eq!(s, "no end"),
        other => panic!("unexpected property: {other:?}"),
    }
    match RegistryProperty::from_sz(vec![]) {
        RegistryProperty::String(s) => assert_eq!(s, ""),
        other => panic!("unexpected property: {other:?}"),
    }
    match RegistryProperty::from_sz(vec![0x41]) {
        RegistryProperty::String(s) => assert_eq!(s, ""),
        other => panic!("unexpected property: {other:?}"),
    }
    match RegistryProperty::from_sz(vec![0x41, 0x00, 0x42]) {
        RegistryProperty::String(s) => assert_eq!(s, "A"),
        other => panic!("unexpected property: {other:?}"),
    }
}

#[test]
fn registry_text_leaves_out_units_that_are_no_character() {
    let units = [0x41u16, 0xD800, 0x42, 0xDFFF, 0xD7FF, 0xE000, 0xFFFF, 0, 0x43];
    match RegistryProperty::from_sz(utf16le(&units)) {
        RegistryProperty::String(s) => assert_eq!(s, "AB\u{D7FF}\u{E000}\u{FFFF}"),
        other => panic!("unexpected property: {other:?}"),
    }
    let units = text_units("é€😀");
    match RegistryProperty::from_sz(utf16le(&units)) {
        RegistryProperty::String(s) => assert_eq!(s, "é€"),
        other => panic!("unexpected property: {other:?}"),
    }
}

#[test]
fn registry_list_of_texts() {
    let mut units = Vec::new();
    for s in ["PCI\\VEN_8086&DEV_7000", "PCI\\CC_0601"] {
        units.extend(text_units(s));
        units.push(0);
    }
    units.push(0);
    units.extend(text_units("after the end"));
    units.push(0);
    match RegistryProperty::from_msz(utf16le(&units)) {
        RegistryProperty::Strings(v) => {
            assert_eq!(v, strings(&["PCI\\VEN_8086&DEV_7000", "PCI\\CC_0601"]))
        }
        other => panic!("unexpected property: {other:?}"),
    }
}

#[test]
fn registry_list_of_texts_edges() {
    let list = |units: &[u16]| match RegistryProperty::from_msz(utf16le(units)) {
        RegistryProperty::Strings(v) => v,
        other => panic!("unexpected property: {other:?}"),
    };
    assert_eq!(list(&[]), Vec::<String>::new());
    assert_eq!(list(&[0]), Vec::<String>::new());
    assert_eq!(list(&[0, 0x41, 0]), Vec::<String>::new());
    assert_eq!(list(&[0x41]), strings(&["A"]));
    assert_eq!(list(&[0x41, 0]), strings(&["A"]));
    assert_eq!(list(&[0x41, 0, 0x42]), strings(&["A", "B"]));
    assert_eq!(list(&[0x41, 0, 0x42, 0, 0]), strings(&["A", "B"]));
    assert_eq!(list(&[0x41, 0, 0xD800, 0, 0x42, 0]), strings(&["A"]));
    assert_eq!(list(&[0x41, 0xD800, 0, 0x42, 0xDC00, 0x43]), strings(&["A", "BC"]));
    let mut odd = utf16le(&[0x41, 0, 0x42]);
    odd.push(0x43);
    match RegistryProperty::from_msz(odd) {
        RegistryProperty::Strings(v) => assert_eq!(v, strings(&["A", "B"])),
        other => panic!("unexpected property: {other:?}"),
    }
}

#[test]
fn registry_values_by_type() {
    assert!(matches!(RegistryProperty::deserialize(REG_NONE, vec![1, 2]), RegistryProperty::Nothing));
    for t in [REG_SZ, REG_EXPAND_SZ] {
        match RegistryProperty::deserialize(t, utf16le(&text_units("ab"))) {
            RegistryProperty::String(s) => assert_eq!(s, "ab"),
            other => panic!("unexpected property: {other:?}"),
        }
    }
    match RegistryProperty::deserialize(REG_MULTI_SZ, utf16le(&[0x61, 0, 0x62, 0, 0])) {
        RegistryProperty::Strings(v) => assert_eq!(v, strings(&["a", "b"])),
        other => panic!("unexpected property: {other:?}"),
    }
    match RegistryProperty::deserialize(REG_BINARY, vec![1, 2, 3]) {
        RegistryProperty::Binary(b) => assert!(b.is_empty()),
        other => panic!("unexpected property: {other:?}"),
    }
    match RegistryProperty::deserialize(REG_DWORD_LITTLE_ENDIAN, vec![0x78, 0x56, 0x34, 0x12, 9]) {
        RegistryProperty::Int(v) => assert_eq!(v, 0x12345678),
        other => panic!("unexpected property: {other:?}"),
    }
    match RegistryProperty::deserialize(REG_DWORD_BIG_ENDIAN, vec![0x78, 0x56, 0x34, 0x12]) {
        RegistryProperty::Int(v) => assert_eq!(v, 0x78563412),
        other => panic!("unexpected property: {other:?}"),
    }
    match RegistryProperty::deserialize(REG_DWORD_LITTLE_ENDIAN, vec![0xFF, 0xFF, 0xFF, 0xFF]) {
        RegistryProperty::Int(v) => assert_eq!(v, u32::MAX),
        other => panic!("unexpected property: {other:?}"),
    }
    for t in [REG_DWORD_LITTLE_ENDIAN, REG_DWORD_BIG_ENDIAN] {
        assert!(matches!(RegistryProperty::deserialize(t, vec![1, 2, 3]), RegistryProperty::Invalid));
    }
    for t in [6u32, 8, 11, 100, u32::MAX] {
        assert!(matches!(RegistryProperty::deserialize(t, vec![0; 8]), RegistryProperty::Invalid));
    }
    assert_eq!(
        (REG_NONE, REG_SZ, REG_EXPAND_SZ, REG_BINARY, REG_DWORD_LITTLE_ENDIAN),
        (0, 1, 2, 3, 4)
    );
    assert_eq!((REG_DWORD_BIG_ENDIAN, REG_MULTI_SZ), (5, 7));
}

#[test]
fn registry_property_as_text_or_texts() {
    assert_eq!(RegistryProperty::String("x".to_string()).into_string().unwrap(), "x");
    assert_eq!(
        RegistryProperty::Strings(strings(&["x", "y"])).into_strings().unwrap(),
        strings(&["x", "y"])
    );
    assert_eq!(
        windows_parse_message(&RegistryProperty::Int(5).into_string().unwrap_err()),
        "Expected string, found 'Int(5)'"
    );
    assert_eq!(
        windows_parse_message(&RegistryProperty::Invalid.into_strings().unwrap_err()),
        "Expected string, found 'Invalid'"
    );
    assert_eq!(
        windows_parse_message(
            &RegistryProperty::String("x".to_string()).into_strings().unwrap_err()
        ),
        "Expected string, found 'String(\"x\")'"
    );
    assert_eq!(
        windows_parse_message(&RegistryProperty::Strings(vec![]).into_string().unwrap_err()),
        "Expected string, found 'Strings([])'"
    );
    assert_eq!(
        windows_parse_message(&RegistryProperty::Binary(vec![1]).into_string().unwrap_err()),
        "Expected string, found 'Binary([1])'"
    );
    assert!(RegistryProperty::Nothing.into_string().is_err());
}

#[test]
fn windows_location_text() {
    assert_eq!(
        parse_pci_location("PCI bus 0, device 31, function 3").unwrap(),
        PciLocation::with_bdf(0, 31, 3).unwrap()
    );
    assert_eq!(parse_pci_location("255,0,7").unwrap(), PciLocation::with_bdf(255, 0, 7).unwrap());
    assert_eq!(
        parse_pci_location("@system32\\drivers\\pci.sys,#65536;PCI bus %1, device %2, function %3;(1,2,3)")
            .unwrap_err()
            .to_string(),
        "error while parsing value: Expected 3 integer elements in pci location, found 5 in \
         '@system32\\drivers\\pci.sys,#65536;PCI bus %1, device %2, function %3;(1,2,3)'"
    );
    assert_eq!(
        parse_pci_location("a1b, c2d ,, 3").unwrap(),
        PciLocation::with_bdf(1, 2, 3).unwrap()
    );
    assert_eq!(
        parse_pci_location("1,256,2,3").unwrap(),
        PciLocation::with_bdf(1, 2, 3).unwrap()
    );
    assert_eq!(
        parse_pci_location("0 1, 2, 3").unwrap(),
        PciLocation::with_bdf(1, 2, 3).unwrap()
    );
}

#[test]
fn windows_location_text_failures() {
    assert_eq!(
        windows_parse_message(&parse_pci_location("").unwrap_err()),
        "Expected 3 integer elements in pci location, found 0 in ''"
    );
    assert_eq!(
        windows_parse_message(&parse_pci_location("PCI bus 0, device 31").unwrap_err()),
        "Expected 3 integer elements in pci location, found 2 in 'PCI bus 0, device 31'"
    );
    assert_eq!(
        windows_parse_message(&parse_pci_location("1,2,3,4").unwrap_err()),
        "Expected 3 integer elements in pci location, found 4 in '1,2,3,4'"
    );
    assert_eq!(
        windows_parse_message(&parse_pci_location("1,2,300").unwrap_err()),
        "Expected 3 integer elements in pci location, found 2 in '1,2,300'"
    );
    assert!(matches!(
        parse_pci_location("bus 1, device 32, function 0"),
        Err(PciInfoError::BdfLocationOutOfRange(1, 32, 0))
    ));
    assert!(matches!(
        parse_pci_location("1,2,8"),
        Err(PciInfoError::BdfLocationOutOfRange(1, 2, 8))
    ));
}

#[test]
fn windows_ids_with_and_without_the_prefix() {
    let de = device_entry_from_ids(
        &strings(&[
            "PCI\\VEN_8086&DEV_7000&SUBSYS_00000000&REV_01",
            "USB\\VEN_1234&DEV_0001",
            "pci\\VEN_9999",
            "PCI",
            "PCI\\",
            "",
        ]),
        &strings(&["PCI\\VEN_8086&DEV_7000&CC_060100", "PCI\\CC_0601", "ACPI\\CC_0C03"]),
    );
    assert!(matches!(de.vendor_id, ConflictOption::Value(0x8086)));
    assert!(matches!(de.device_id, ConflictOption::Value(0x7000)));
    assert!(matches!(de.subsystem, ConflictOption::Value(0)));
    assert!(matches!(de.revision, ConflictOption::Value(1)));
    assert!(matches!(de.class_code_long, ConflictOption::Value(0x060100)));
    assert!(matches!(de.class_code_short, ConflictOption::Value(0x0601)));
    let d = de.try_into_device(false).unwrap();
    assert_eq!(d.device_class_code().unwrap(), 6);
    assert_eq!(d.device_subclass_code().unwrap(), 1);
    assert_eq!(d.device_iface_code().unwrap(), 0);
    assert_eq!(d.subsystem_vendor_id().unwrap(), Some(0));
}

#[test]
fn windows_single_id() {
    let mut de = device_entry_from_ids(&vec![], &vec![]);
    assert!(de.vendor_id.is_empty());
    parse_windows_id(&mut de, "PCI\\VEN_1AF4");
    assert!(matches!(de.vendor_id, ConflictOption::Value(0x1AF4)));
    parse_windows_id(&mut de, "VEN_0001");
    assert!(matches!(de.vendor_id, ConflictOption::Value(0x1AF4)));
    parse_windows_id(&mut de, "PCI\\VEN_0001");
    assert!(matches!(de.vendor_id, ConflictOption::Conflict(_)));
}

#[test]
fn wmi_properties() {
    let text = |s: &str| WmiValue::String(s.to_string());
    let hw = WmiValue::Array(vec![
        text("PCI\\VEN_8086&DEV_7000"),
        WmiValue::Other,
        WmiValue::Array(vec![text("PCI\\VEN_1111")]),
        text("HID\\VEN_2222"),
    ]);
    let compat = WmiValue::Array(vec![text("PCI\\VEN_8086&CC_0601"), text("PCI\\REV_02")]);
    let de = read_device_from_wmi_properties(Some(&hw), Some(&compat)).unwrap();
    assert!(matches!(de.vendor_id, ConflictOption::Value(0x8086)));
    assert!(matches!(de.device_id, ConflictOption::Value(0x7000)));
    assert!(matches!(de.class_code_short, ConflictOption::Value(0x0601)));
    assert!(matches!(de.revision, ConflictOption::Value(2)));
}

#[test]
fn wmi_properties_that_are_missing() {
    let list = WmiValue::Array(vec![]);
    let text = WmiValue::String("PCI\\VEN_8086".to_string());
    let name = |r: Result<_, PciInfoError>| match r {
        Err(PciInfoError::ValueNotFound(Some(s))) => s.to_string(),
        Err(other) => panic!("unexpected error: {other:?}"),
        Ok(_) => panic!("unexpected success"),
    };
    assert_eq!(name(read_device_from_wmi_properties(None, Some(&list)).map(|_| ())), "HardwareID");
    assert_eq!(name(read_device_from_wmi_properties(None, None).map(|_| ())), "HardwareID");
    assert_eq!(
        name(read_device_from_wmi_properties(Some(&text), Some(&list)).map(|_| ())),
        "HardwareID"
    );
    assert_eq!(
        name(read_device_from_wmi_properties(Some(&WmiValue::Other), None).map(|_| ())),
        "HardwareID"
    );
    assert_eq!(
        name(read_device_from_wmi_properties(Some(&list), None).map(|_| ())),
        "CompatibleID"
    );
    assert_eq!(
        name(read_device_from_wmi_properties(Some(&list), Some(&text)).map(|_| ())),
        "CompatibleID"
    );
    let de = read_device_from_wmi_properties(Some(&list), Some(&list)).unwrap();
    assert!(de.vendor_id.is_empty());
}

#[test]
fn registry_property_text() {
    let values = [
        RegistryProperty::Nothing,
        RegistryProperty::Invalid,
        RegistryProperty::Int(0),
        RegistryProperty::Int(u32::MAX),
        RegistryProperty::String(String::new()),
        RegistryProperty::String("a \"quoted\" \\ text\n".to_string()),
        RegistryProperty::Strings(vec![]),
        RegistryProperty::Strings(strings(&["a", "b\tc", ""])),
        RegistryProperty::Binary(vec![]),
        RegistryProperty::Binary(vec![7]),
        RegistryProperty::Binary(vec![0, 10, 255, 100]),
    ];
    for v in &values {
        assert_eq!(v.to_text(), format!("{v:?}"));
    }
    assert_eq!(RegistryProperty::Nothing.to_text(), "Nothing");
    assert_eq!(RegistryProperty::Int(77).to_text(), "Int(77)");
    assert_eq!(RegistryProperty::Binary(vec![1, 2, 3]).to_text(), "Binary([1, 2, 3])");
    assert_eq!(
        RegistryProperty::Strings(strings(&["x", "y"])).to_text(),
        "Strings([\"x\", \"y\"])"
    );
}

#[test]
fn windows_instance_ids() {
    assert!(is_pci_instance_id(&text_units("PCI\\VEN_8086&DEV_7000\\3&11583659&0&F8")));
    assert!(is_pci_instance_id(&text_units("PCI\\")));
    assert!(!is_pci_instance_id(&text_units("PCI")));
    assert!(!is_pci_instance_id(&text_units("pci\\VEN_8086")));
    assert!(!is_pci_instance_id(&text_units("USB\\VID_1234")));
    assert!(!is_pci_instance_id(&text_units(" PCI\\")));
    assert!(!is_pci_instance_id(&[]));
}

#[test]
fn windows_location_property() {
    let text = |s: &str| Ok(RegistryProperty::String(s.to_string()));
    assert_eq!(
        location_from_property(text("PCI bus 0, device 31, function 3")).unwrap(),
        PciLocation::with_bdf(0, 31, 3).unwrap()
    );
    assert!(matches!(
        location_from_property(Err(PciInfoError::UnexpectedEof)),
        Err(PciInfoError::UnexpectedEof)
    ));
    assert_eq!(
        windows_parse_message(&location_from_property(Ok(RegistryProperty::Int(3))).unwrap_err()),
        "Expected string, found 'Int(3)'"
    );
    assert_eq!(
        windows_parse_message(&location_from_property(text("nowhere")).unwrap_err()),
        "Expected 3 integer elements in pci location, found 0 in 'nowhere'"
    );
    assert!(matches!(
        location_from_property(text("1,2,9")),
        Err(PciInfoError::BdfLocationOutOfRange(1, 2, 9))
    ));
}

#[test]
fn windows_device_from_the_registry() {
    let id = text_units("PCI\\VEN_8086&DEV_7000\\3&11583659&0&F8");
    let hw = || Ok(RegistryProperty::Strings(strings(&["PCI\\VEN_8086&DEV_7000&REV_01"])));
    let compat = || Ok(RegistryProperty::Strings(strings(&["PCI\\CC_060100"])));
    let at = || Ok(RegistryProperty::String("PCI bus 0, device 7, function 0".to_string()));
    let de = enumerate_device(&id, hw(), compat(), at()).unwrap().unwrap();
    let d = de.try_into_device(true).unwrap();
    assert_eq!((d.vendor_id(), d.device_id()), (0x8086, 0x7000));
    assert_eq!(d.revision().unwrap(), 1);
    assert_eq!(d.device_class_code().unwrap(), 6);
    assert_eq!(d.location().unwrap(), PciLocation::with_bdf(0, 7, 0).unwrap());

    let de = enumerate_device(&id, hw(), compat(), Err(PciInfoError::UnexpectedEof))
        .unwrap()
        .unwrap();
    assert!(matches!(de.location, ConflictOption::Error(PciInfoError::UnexpectedEof)));
    let d = de.try_into_device(true).unwrap();
    assert_eq!(d.vendor_id(), 0x8086);
    assert!(d.location().is_err());

    assert!(enumerate_device(&text_units("USB\\1"), hw(), compat(), at()).unwrap().is_none());
    assert!(enumerate_device(
        &text_units("ACPI"),
        Err(PciInfoError::UnexpectedEof),
        Err(PciInfoError::UnexpectedEof),
        Err(PciInfoError::UnexpectedEof)
    )
    .unwrap()
    .is_none());

    assert!(matches!(
        enumerate_device(&id, Err(PciInfoError::UnexpectedEof), compat(), at()),
        Err(PciInfoError::UnexpectedEof)
    ));
    assert!(matches!(
        enumerate_device(&id, hw(), Err(PciInfoError::DevicesChangedTooManyTimes), at()),
        Err(PciInfoError::DevicesChangedTooManyTimes)
    ));
    match enumerate_device(&id, Ok(RegistryProperty::Invalid), Err(PciInfoError::UnexpectedEof), at())
    {
        Err(e) => assert_eq!(windows_parse_message(&e), "Expected string, found 'Invalid'"),
        Ok(_) => panic!("unexpected success"),
    }
    match enumerate_device(&id, hw(), at(), at()) {
        Err(e) => assert_eq!(
            windows_parse_message(&e),
            "Expected string, found 'String(\"PCI bus 0, device 7, function 0\")'"
        ),
        Ok(_) => panic!("unexpected success"),
    }
}
