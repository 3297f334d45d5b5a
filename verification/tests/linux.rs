use pci_info::enumerators::linux::proc_fs::{
    device_from_headers, fail_os_properties, merge_device_file, merge_device_file_entry,
    parse_bus_id, parse_slot_and_func, push_device_file_entries, specialized_from_read,
    split_device_line, DeviceFileEntry,
};
use pci_info::enumerators::linux::LinuxProcFsPciEnumerator;
use pci_info::pci_headers::{PciCommonHeader, PciSpecializedHeader};
use pci_info::{
    PciDevice, PciDeviceEnumerationErrorImpact, PciDeviceEnumerationErrorLocation,
    PciDeviceProperties, PciInfo, PciInfoError, PciInfoPropertyError, PciLocation, PropertyResult,
};
use std::path::PathBuf;

const LINE: &str = "00fa\t80862922\t1b\t            f7e10000\t                   0\t                   0\t                   0\t                   0\t                   0\t                   0\t                 800\t                   0\t                   0\t                   0\t                   0\t                   0\t                   0\tahci";

fn linux_parse_message(e: &PciInfoError) -> String {
    match e {
        PciInfoError::ParseError(s) => s.as_str().to_string(),
        other => panic!("not a parse error: {other:?}"),
    }
}

fn file_entry(line: &str) -> Result<DeviceFileEntry, PciInfoError> {
    DeviceFileEntry::new(split_device_line(line))
}

fn device_at_location(vendor: u16, location: PciLocation) -> PciDevice {
    let mut p = PciDeviceProperties::default();
    p.location = PropertyResult::with_val(location);
    p.revision = PropertyResult::with_val(3);
    PciDevice::new(vendor, 0x10, p)
}

#[test]
fn linux_enumerator_arguments() {
    assert_eq!(LinuxProcFsPciEnumerator::Fastest.into_arguments(), (false, false, true));
    assert_eq!(LinuxProcFsPciEnumerator::HeadersOnly.into_arguments(), (true, true, false));
    assert_eq!(LinuxProcFsPciEnumerator::SkipNoncommonHeaders.into_arguments(), (true, false, true));
    assert_eq!(LinuxProcFsPciEnumerator::Exhaustive.into_arguments(), (true, true, true));
}

#[test]
fn linux_enumerator_with_custom_path() {
    let e = LinuxProcFsPciEnumerator::SkipNoncommonHeaders
        .with_custom_path(PathBuf::from("test-data/linux/amd64"));
    assert_eq!(e.path, PathBuf::from("test-data/linux/amd64"));
    assert!(e.read_headers);
    assert!(!e.read_extended_headers);
    assert!(e.read_device_file);
    let e = LinuxProcFsPciEnumerator::Fastest.with_custom_path(PathBuf::new());
    assert_eq!((e.read_headers, e.read_extended_headers, e.read_device_file), (false, false, true));
}

#[test]
fn linux_bus_id() {
    assert_eq!(parse_bus_id(Some("00")).unwrap(), 0);
    assert_eq!(parse_bus_id(Some("7f")).unwrap(), 0x7F);
    assert_eq!(parse_bus_id(Some("FF")).unwrap(), 0xFF);
    assert_eq!(
        linux_parse_message(&parse_bus_id(Some("devices")).unwrap_err()),
        "bus id is invalid hex: 'devices'"
    );
    assert_eq!(
        linux_parse_message(&parse_bus_id(Some("100")).unwrap_err()),
        "bus id is invalid hex: '100'"
    );
    assert_eq!(linux_parse_message(&parse_bus_id(Some("")).unwrap_err()), "bus id is invalid hex: ''");
    assert_eq!(linux_parse_message(&parse_bus_id(None).unwrap_err()), "bus id has invalid code");
}

#[test]
fn linux_slot_and_func() {
    assert_eq!(parse_slot_and_func(Some("1f.3")).unwrap(), (0x1F, 3));
    assert_eq!(parse_slot_and_func(Some("00.0")).unwrap(), (0, 0));
    assert_eq!(parse_slot_and_func(Some("ff.ff")).unwrap(), (0xFF, 0xFF));
    assert_eq!(
        linux_parse_message(&parse_slot_and_func(Some("1f")).unwrap_err()),
        "slot id is invalid pattern, hh.h expected: '1f'"
    );
    assert_eq!(
        linux_parse_message(&parse_slot_and_func(Some("")).unwrap_err()),
        "slot id is invalid pattern, hh.h expected: ''"
    );
    assert_eq!(
        linux_parse_message(&parse_slot_and_func(Some("xx.3")).unwrap_err()),
        "slot id is invalid hex: 'xx'"
    );
    assert_eq!(
        linux_parse_message(&parse_slot_and_func(Some(".3")).unwrap_err()),
        "slot id is invalid hex: ''"
    );
    assert_eq!(
        linux_parse_message(&parse_slot_and_func(Some("1f.")).unwrap_err()),
        "func id is invalid hex: ''"
    );
    assert_eq!(
        linux_parse_message(&parse_slot_and_func(Some("1f.3.4")).unwrap_err()),
        "func id is invalid hex: '3.4'"
    );
    assert_eq!(
        linux_parse_message(&parse_slot_and_func(Some("zz.yy")).unwrap_err()),
        "slot id is invalid hex: 'zz'"
    );
    assert_eq!(
        linux_parse_message(&parse_slot_and_func(None).unwrap_err()),
        "bus id has invalid code"
    );
}

#[test]
fn linux_device_line_fields() {
    assert_eq!(split_device_line("a\t b \t\tc "), vec!["a", "b", "", "c"]);
    assert_eq!(split_device_line(""), vec![""]);
    assert_eq!(split_device_line("\t"), vec!["", ""]);
    assert_eq!(split_device_line("  x y  "), vec!["x y"]);
    assert_eq!(split_device_line("\u{a0}x\u{3000}\ty\r\n"), vec!["x", "y"]);
    assert_eq!(split_device_line(" \t \u{2003} "), vec!["", ""]);
    let fields = split_device_line(LINE);
    assert_eq!(fields.len(), 18);
    assert_eq!(fields[0], "00fa");
    assert_eq!(fields[3], "f7e10000");
    assert_eq!(fields[17], "ahci");
    for line in ["x\ty", " a\tb\t", "\t\t", "no tabs", "é\t ü \t"] {
        let expected: Vec<&str> = line.split('\t').map(|s| s.trim()).collect();
        assert_eq!(split_device_line(line), expected);
    }
}

#[test]
fn linux_device_file_entry() {
    let e = file_entry(LINE).unwrap();
    assert_eq!(e.location, PciLocation::with_bdf(0, 31, 2).unwrap());
    assert_eq!(e.vendor_id, 0x8086);
    assert_eq!(e.device_id, 0x2922);
    assert_eq!(e.irq, Some(0x1B));
    assert_eq!(e.kernel_driver, Some("ahci".to_string()));
}

#[test]
fn linux_device_file_entry_without_irq_or_driver() {
    let e = DeviceFileEntry::new(vec!["0100", "10de1c82", "0", "x"]).unwrap();
    assert_eq!(e.location, PciLocation::with_bdf(1, 0, 0).unwrap());
    assert_eq!(e.vendor_id, 0x10DE);
    assert_eq!(e.device_id, 0x1C82);
    assert_eq!(e.irq, None);
    assert_eq!(e.kernel_driver, None);
    let e = DeviceFileEntry::new(vec!["ffff", "ffffffff", "zz", ""]).unwrap();
    assert_eq!(e.location, PciLocation::with_bdf(255, 31, 7).unwrap());
    assert_eq!((e.vendor_id, e.device_id), (0xFFFF, 0xFFFF));
    assert_eq!(e.irq, None);
    let e = DeviceFileEntry::new(vec!["0", "1", "100", ""]).unwrap();
    assert_eq!(e.irq, None);
    assert_eq!((e.vendor_id, e.device_id), (0, 1));
    let mut fields = vec!["0008", "00010002", "ff", ""];
    fields.resize(17, "0");
    fields.push("");
    let e = DeviceFileEntry::new(fields.clone()).unwrap();
    assert_eq!(e.irq, Some(0xFF));
    assert_eq!(e.kernel_driver, None);
    assert_eq!(e.location, PciLocation::with_bdf(0, 1, 0).unwrap());
    fields[17] = "e1000e";
    fields.push("more");
    assert_eq!(DeviceFileEntry::new(fields).unwrap().kernel_driver, Some("e1000e".to_string()));
}

#[test]
fn linux_device_file_entry_failures() {
    for fields in [vec![], vec!["0000"], vec!["0000", "80861237", "0"]] {
        assert_eq!(
            linux_parse_message(&DeviceFileEntry::new(fields).err().unwrap()),
            "devices file line has not enough entries"
        );
    }
    assert_eq!(
        linux_parse_message(&DeviceFileEntry::new(vec!["10000", "1", "1", "1"]).err().unwrap()),
        "bus id in devices file is invalid hex: '10000'"
    );
    assert_eq!(
        linux_parse_message(&DeviceFileEntry::new(vec!["", "zz", "1", "1"]).err().unwrap()),
        "bus id in devices file is invalid hex: ''"
    );
    assert_eq!(
        linux_parse_message(&DeviceFileEntry::new(vec!["0", "8086 1237", "1", "1"]).err().unwrap()),
        "device+vendor id in devices file is invalid hex: '8086 1237'"
    );
    assert_eq!(
        linux_parse_message(&file_entry("").err().unwrap()),
        "devices file line has not enough entries"
    );
}

#[test]
fn linux_specialized_header_after_the_read() {
    let mut b = vec![0u8; 72];
    b[0x2C] = 0x34;
    b[0x2D] = 0x12;
    match specialized_from_read(0x80, &b, Ok(())) {
        Ok(PciSpecializedHeader::GenericDevice(h)) => assert_eq!(h.subsystem_vendor_id, 0x1234),
        other => panic!("unexpected result: {other:?}"),
    }
    assert!(matches!(
        specialized_from_read(1, &b, Ok(())),
        Ok(PciSpecializedHeader::PciToPciBridge(_))
    ));
    assert!(matches!(
        specialized_from_read(2, &b, Ok(())),
        Ok(PciSpecializedHeader::PciToCardbusBridge(_))
    ));
    assert!(matches!(
        specialized_from_read(2, &b, Err(PciInfoError::UnexpectedEof)),
        Err(PciInfoError::UnexpectedEof)
    ));
    assert!(matches!(
        specialized_from_read(3, &b, Err(PciInfoError::UnexpectedEof)),
        Err(PciInfoError::UnknownPciHeaderType(3))
    ));
    assert!(matches!(
        specialized_from_read(0x7F, &b, Ok(())),
        Err(PciInfoError::UnknownPciHeaderType(0x7F))
    ));
    assert!(matches!(specialized_from_read(2, &b[..64], Ok(())), Err(PciInfoError::ParseError(_))));
}

#[test]
fn linux_device_from_headers() {
    let mut b = vec![0u8; 72];
    b[0] = 0x86;
    b[1] = 0x80;
    b[8] = 5;
    b[11] = 6;
    let header = PciCommonHeader::with_bytes(&b).unwrap();
    let l = PciLocation::with_bdf(1, 2, 3);
    let d = device_from_headers(l, header.clone(), None);
    assert_eq!(d.location().unwrap(), PciLocation::with_bdf(1, 2, 3).unwrap());
    assert_eq!(d.vendor_id(), 0x8086);
    assert_eq!(d.revision().unwrap(), 5);
    assert_eq!(d.device_class_code().unwrap(), 6);
    assert!(matches!(d.pci_specialized_header(), Err(PciInfoPropertyError::Unsupported)));
    let d = device_from_headers(
        PciLocation::with_bdf(1, 32, 3),
        header.clone(),
        Some(Err(PciInfoError::UnexpectedEof)),
    );
    match d.location() {
        Err(PciInfoPropertyError::Error(e)) => {
            assert!(matches!(**e, PciInfoError::BdfLocationOutOfRange(1, 32, 3)))
        }
        other => panic!("unexpected result: {other:?}"),
    }
    match d.pci_specialized_header() {
        Err(PciInfoPropertyError::Error(e)) => assert!(matches!(**e, PciInfoError::UnexpectedEof)),
        other => panic!("unexpected result: {other:?}"),
    }
    assert_eq!(d.pci_common_header().unwrap(), &header);
    let s = specialized_from_read(0, &b, Ok(()));
    let d = device_from_headers(PciLocation::with_bdf(0, 0, 0), header, Some(s));
    assert_eq!(d.subsystem_vendor_id().unwrap(), Some(0));
    assert!(d.pci_specialized_header().is_ok());
}

#[test]
fn linux_entries_alone_become_devices_and_errors() {
    let mut pi = PciInfo::empty();
    pi.push_device(device_at_location(9, PciLocation::with_bdf(9, 9, 1).unwrap()));
    push_device_file_entries(
        &mut pi,
        vec![file_entry(LINE), file_entry("zz"), file_entry("0100\t10de1c82\t0\tx")],
    );
    assert_eq!(pi.results.len(), 4);
    assert_eq!(pi.results[0].as_ref().unwrap().vendor_id(), 9);
    let d = pi.results[1].as_ref().unwrap();
    assert_eq!((d.vendor_id(), d.device_id()), (0x8086, 0x2922));
    assert_eq!(d.location().unwrap(), PciLocation::with_bdf(0, 31, 2).unwrap());
    assert_eq!(d.os_irq().unwrap(), Some(0x1B));
    assert_eq!(d.os_driver().unwrap(), &Some("ahci".to_string()));
    assert!(matches!(d.revision(), Err(PciInfoPropertyError::Unsupported)));
    assert!(matches!(d.subsystem_vendor_id(), Err(PciInfoPropertyError::Unsupported)));
    let e = pi.results[2].as_ref().err().unwrap();
    assert_eq!(e.impact(), PciDeviceEnumerationErrorImpact::Device);
    assert_eq!(e.location(), PciDeviceEnumerationErrorLocation::Unknown);
    assert_eq!(linux_parse_message(e.error()), "devices file line has not enough entries");
    let d = pi.results[3].as_ref().unwrap();
    assert_eq!(d.os_irq().unwrap(), None);
    assert_eq!(d.os_driver().unwrap(), &None);
}

#[test]
fn linux_entries_merge_into_the_devices_of_the_headers() {
    let at = PciLocation::with_bdf(0, 31, 2).unwrap();
    let mut pi = PciInfo::empty();
    pi.push_device(device_at_location(1, PciLocation::with_bdf(0, 0, 0).unwrap()));
    pi.push_device(device_at_location(2, at));
    pi.push_device(device_at_location(3, at));
    merge_device_file(
        &mut pi,
        Ok(vec![file_entry(LINE), file_entry("x"), file_entry("0100\t10de1c82\t5\tx")]),
    );
    assert_eq!(pi.results.len(), 4);
    let d = pi.results[1].as_ref().unwrap();
    assert_eq!(d.vendor_id(), 2);
    assert_eq!(d.revision().unwrap(), 3);
    assert_eq!(d.os_irq().unwrap(), Some(0x1B));
    assert_eq!(d.os_driver().unwrap(), &Some("ahci".to_string()));
    for i in [0, 2] {
        let d = pi.results[i].as_ref().unwrap();
        assert!(matches!(d.os_irq(), Err(PciInfoPropertyError::Unsupported)));
        assert!(matches!(d.os_driver(), Err(PciInfoPropertyError::Unsupported)));
    }
    let e = pi.results[3].as_ref().err().unwrap();
    assert_eq!(e.impact(), PciDeviceEnumerationErrorImpact::DeviceProperties);
    assert_eq!(linux_parse_message(e.error()), "devices file line has not enough entries");
}

#[test]
fn linux_later_lines_overwrite_earlier_ones() {
    let at = PciLocation::with_bdf(0, 31, 2).unwrap();
    let mut pi = PciInfo::empty();
    pi.push_device(device_at_location(2, at));
    merge_device_file_entry(&mut pi, file_entry(LINE));
    merge_device_file_entry(&mut pi, file_entry("00fa\t80862922\t0\tx"));
    let d = pi.results[0].as_ref().unwrap();
    assert_eq!(d.os_irq().unwrap(), None);
    assert_eq!(d.os_driver().unwrap(), &None);
    assert_eq!(pi.results.len(), 1);
}

#[test]
fn linux_unreadable_devices_file_fails_the_os_properties() {
    let mut pi = PciInfo::empty();
    pi.push_device(device_at_location(1, PciLocation::with_bdf(0, 0, 0).unwrap()));
    pi.push_error(pci_info::PciDeviceEnumerationError::new(
        PciDeviceEnumerationErrorImpact::Bus,
        PciInfoError::DevicesChangedTooManyTimes,
    ));
    pi.push_device(device_at_location(2, PciLocation::with_bdf(0, 1, 0).unwrap()));
    merge_device_file(&mut pi, Err(PciInfoError::UnexpectedEof));
    assert_eq!(pi.results.len(), 3);
    for i in [0, 2] {
        let d = pi.results[i].as_ref().unwrap();
        assert_eq!(d.revision().unwrap(), 3);
        assert!(d.location().is_ok());
        for failed in [d.os_irq().is_err(), d.os_driver().is_err()] {
            assert!(failed);
        }
        match d.os_irq() {
            Err(PciInfoPropertyError::Error(e)) => {
                assert!(matches!(**e, PciInfoError::UnexpectedEof))
            }
            other => panic!("unexpected result: {other:?}"),
        }
        match d.os_driver() {
            Err(PciInfoPropertyError::Error(e)) => {
                assert!(matches!(**e, PciInfoError::UnexpectedEof))
            }
            other => panic!("unexpected result: {other:?}"),
        }
    }
    assert!(matches!(
        pi.results[1].as_ref().err().unwrap().error(),
        PciInfoError::DevicesChangedTooManyTimes
    ));
    let mut empty = PciInfo::empty();
    fail_os_properties(&mut empty, &PciInfoError::UnexpectedEof);
    assert!(empty.results.is_empty());
}
