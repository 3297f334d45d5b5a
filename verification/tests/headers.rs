use pci_info::pci_headers::{
    PciCommonHeader, PciConfigBuffer, PciGenericDeviceHeader, PciSpecializedHeader,
    PciToCardbusBridgeHeader, PciToPciBridgeHeader,
};
use pci_info::PciInfoError;

// PCI header of an Intel 82371SB PIIX3 southbridge ISA bridge
const PCI_HEADER_BYTES: [u8; 64] = [
    0x86, 0x80, 0x00, 0x70, 0x03, 0x00, 0x00, 0x00, 0x00, 0x00, 0x01, 0x06, 0x00, 0x00, 0x80, 0x00,
    0x00, 0x00, 0x00, 0x00, 0x00, 0x00, 0x00, 0x00, 0x00, 0x00, 0x00, 0x00, 0x00, 0x00, 0x00, 0x00,
    0x00, 0x00, 0x00, 0x00, 0x00, 0x00, 0x00, 0x00, 0x00, 0x00, 0x00, 0x00, 0x00, 0x00, 0x00, 0x00,
    0x00, 0x00, 0x00, 0x00, 0x00, 0xff, 0xff, 0xff, 0xff, 0xff, 0xff, 0xff, 0x00, 0x00, 0x00, 0x00,
];

fn counting_bytes(n: usize) -> Vec<u8> {
    (0..n).map(|i| (i as u8).wrapping_mul(7).wrapping_add(3)).collect()
}

fn le16(b: &[u8], at: usize) -> u16 {
    u16::from_le_bytes([b[at], b[at + 1]])
}

fn le32(b: &[u8], at: usize) -> u32 {
    u32::from_le_bytes([b[at], b[at + 1], b[at + 2], b[at + 3]])
}

fn parse_message(e: &PciInfoError) -> String {
    match e {
        PciInfoError::ParseError(s) => s.as_str().to_string(),
        other => panic!("not a parse error: {other:?}"),
    }
}

#[test]
fn common_header_of_the_isa_bridge() {
    let bytes = [
        0x86, 0x80, 0x00, 0x70, 0x03, 0x00, 0x00, 0x00, 0x00, 0x00, 0x01, 0x06, 0x00, 0x00, 0x80,
        0x00,
    ];
    let h = PciCommonHeader::with_bytes(&bytes).unwrap();
    assert_eq!(h.vendor_id, 0x8086);
    assert_eq!(h.device_id, 0x7000);
    assert_eq!(h.class_code, 0x06);
    assert_eq!(h.subclass_code, 0x01);
    assert_eq!(h.header_type, 0x80);
    assert_eq!(h.command, 0x0003);
    assert_eq!(h.status, 0x0000);
    assert_eq!(h.revision_id, 0);
    assert_eq!(h.prog_iface_code, 0);
    assert_eq!(h.cache_line_size, 0);
    assert_eq!(h.latency_timer, 0);
    assert_eq!(h.bist, 0);
}

#[test]
fn common_header_masked_type_of_the_isa_bridge_is_generic() {
    let h = PciCommonHeader::with_bytes(&PCI_HEADER_BYTES).unwrap();
    assert_eq!(h.header_type & 0x7F, 0x00);
    let s = PciSpecializedHeader::read_subheader(h.header_type, &PCI_HEADER_BYTES, true).unwrap();
    assert!(matches!(s, PciSpecializedHeader::GenericDevice(_)));
}

#[test]
fn common_header_reads_every_lane() {
    let bytes = counting_bytes(16);
    let h = PciCommonHeader::with_bytes(&bytes).unwrap();
    assert_eq!(h.vendor_id, le16(&bytes, 0));
    assert_eq!(h.device_id, le16(&bytes, 2));
    assert_eq!(h.command, le16(&bytes, 4));
    assert_eq!(h.status, le16(&bytes, 6));
    assert_eq!(h.revision_id, bytes[8]);
    assert_eq!(h.prog_iface_code, bytes[9]);
    assert_eq!(h.subclass_code, bytes[10]);
    assert_eq!(h.class_code, bytes[11]);
    assert_eq!(h.cache_line_size, bytes[12]);
    assert_eq!(h.latency_timer, bytes[13]);
    assert_eq!(h.header_type, bytes[14]);
    assert_eq!(h.bist, bytes[15]);
}

#[test]
fn common_header_needs_sixteen_bytes() {
    for n in 0..16 {
        let bytes = counting_bytes(n);
        let e = PciCommonHeader::with_bytes(&bytes).unwrap_err();
        assert_eq!(parse_message(&e), "not enough bytes at end of header");
    }
    assert!(PciCommonHeader::with_bytes(&counting_bytes(16)).is_ok());
    assert!(PciCommonHeader::with_bytes(&counting_bytes(200)).is_ok());
}

#[test]
fn common_header_ignores_what_follows() {
    let mut bytes = counting_bytes(64);
    let a = PciCommonHeader::with_bytes(&bytes).unwrap();
    for b in bytes.iter_mut().skip(16) {
        *b = !*b;
    }
    let b = PciCommonHeader::with_bytes(&bytes).unwrap();
    assert_eq!(a, b);
}

#[test]
fn common_header_lengths() {
    assert_eq!(PciCommonHeader::COMMON_HEADER_LEN, 16);
    assert_eq!(PciCommonHeader::MAX_HEADER_LEN, 72);
    assert_eq!(PciGenericDeviceHeader::LENGTH, 64);
    assert_eq!(PciToPciBridgeHeader::LENGTH, 64);
    assert_eq!(PciToCardbusBridgeHeader::LENGTH, 72);
    assert_eq!(PciGenericDeviceHeader::ID, 0);
    assert_eq!(PciToPciBridgeHeader::ID, 1);
    assert_eq!(PciToCardbusBridgeHeader::ID, 2);
}

#[test]
fn register_buffer_reads_little_endian() {
    let bytes = [0x11u8, 0x22, 0x33, 0x44, 0xAA, 0xBB, 0xCC, 0xDD];
    let cfg = PciConfigBuffer::new(&bytes, 0);
    assert_eq!(cfg.read_u32(0), 0x44332211);
    assert_eq!(cfg.read_u32(1), 0xDDCCBBAA);
    assert_eq!(cfg.read_u16_lo(0), 0x2211);
    assert_eq!(cfg.read_u16_hi(0), 0x4433);
    assert_eq!(cfg.read_u16_lo(1), 0xBBAA);
    assert_eq!(cfg.read_u16_hi(1), 0xDDCC);
    assert_eq!(cfg.read_u8(0, 0), 0x11);
    assert_eq!(cfg.read_u8(0, 3), 0x44);
    assert_eq!(cfg.read_u8(1, 1), 0xBB);
    assert_eq!(cfg.read_u8(1, 2), 0xCC);
}

#[test]
fn register_buffer_with_offset_addresses_by_register() {
    let bytes = [0x11u8, 0x22, 0x33, 0x44, 0xAA, 0xBB, 0xCC, 0xDD];
    let cfg = PciConfigBuffer::new(&bytes, 16);
    assert_eq!(cfg.first_register(), 4);
    assert_eq!(cfg.last_register(), 6);
    assert_eq!(cfg.read_u32(4), 0x44332211);
    assert_eq!(cfg.read_u16_hi(5), 0xDDCC);
    assert_eq!(cfg.read_u8(5, 0), 0xAA);
    assert!(cfg.assert_registers_available(4, 5).is_ok());
    assert_eq!(
        parse_message(&cfg.assert_registers_available(3, 5).unwrap_err()),
        "not enough bytes at start of header"
    );
    assert_eq!(
        parse_message(&cfg.assert_registers_available(4, 6).unwrap_err()),
        "not enough bytes at end of header"
    );
    assert_eq!(
        parse_message(&cfg.assert_registers_available(0, 9).unwrap_err()),
        "not enough bytes at start of header"
    );
}

#[test]
fn register_buffer_counts_whole_registers_only() {
    let bytes = [0u8; 7];
    let cfg = PciConfigBuffer::new(&bytes, 0);
    assert_eq!(cfg.first_register(), 0);
    assert_eq!(cfg.last_register(), 1);
    assert!(cfg.assert_registers_available(0, 0).is_ok());
    assert!(cfg.assert_registers_available(0, 1).is_err());
    let empty: [u8; 0] = [];
    let cfg = PciConfigBuffer::new(&empty, 0);
    assert_eq!(cfg.last_register(), 0);
    assert!(cfg.assert_registers_available(0, 0).is_err());
}

#[test]
fn subheader_lengths_by_type() {
    assert_eq!(PciSpecializedHeader::length_of_subheader(0), Some(64));
    assert_eq!(PciSpecializedHeader::length_of_subheader(1), Some(64));
    assert_eq!(PciSpecializedHeader::length_of_subheader(2), Some(72));
    assert_eq!(PciSpecializedHeader::length_of_subheader(3), None);
    assert_eq!(PciSpecializedHeader::length_of_subheader(0x7F), None);
    assert_eq!(PciSpecializedHeader::length_of_subheader(0x80), Some(64));
    assert_eq!(PciSpecializedHeader::length_of_subheader(0x81), Some(64));
    assert_eq!(PciSpecializedHeader::length_of_subheader(0x82), Some(72));
    assert_eq!(PciSpecializedHeader::length_of_subheader(0x83), None);
    assert_eq!(PciSpecializedHeader::length_of_subheader(0xFF), None);
}

#[test]
fn subheader_variant_follows_the_masked_type() {
    let bytes = counting_bytes(72);
    for multi in [0u8, 0x80] {
        assert!(matches!(
            PciSpecializedHeader::read_subheader(multi, &bytes, true),
            Ok(PciSpecializedHeader::GenericDevice(_))
        ));
        assert!(matches!(
            PciSpecializedHeader::read_subheader(multi | 1, &bytes, true),
            Ok(PciSpecializedHeader::PciToPciBridge(_))
        ));
        assert!(matches!(
            PciSpecializedHeader::read_subheader(multi | 2, &bytes, true),
            Ok(PciSpecializedHeader::PciToCardbusBridge(_))
        ));
    }
}

#[test]
fn subheader_of_unknown_type_reports_the_byte_as_given() {
    let bytes = counting_bytes(72);
    for t in 0..=255u8 {
        if t & 0x7F <= 2 {
            continue;
        }
        for includes in [true, false] {
            match PciSpecializedHeader::read_subheader(t, &bytes, includes) {
                Err(PciInfoError::UnknownPciHeaderType(got)) => assert_eq!(got, t),
                other => panic!("unexpected result for type {t}: {other:?}"),
            }
        }
    }
    match PciSpecializedHeader::read_subheader(0x83, &[], true) {
        Err(PciInfoError::UnknownPciHeaderType(0x83)) => {}
        other => panic!("unexpected result: {other:?}"),
    }
}

#[test]
fn subheader_needs_the_whole_header() {
    for (t, total) in [(0u8, 64usize), (1, 64), (2, 72)] {
        for n in 0..total {
            let e = PciSpecializedHeader::read_subheader(t, &counting_bytes(n), true).unwrap_err();
            assert_eq!(parse_message(&e), "not enough bytes at end of header");
        }
        assert!(PciSpecializedHeader::read_subheader(t, &counting_bytes(total), true).is_ok());
        for n in 0..total - 16 {
            let e = PciSpecializedHeader::read_subheader(t, &counting_bytes(n), false).unwrap_err();
            assert_eq!(parse_message(&e), "not enough bytes at end of header");
        }
        assert!(
            PciSpecializedHeader::read_subheader(t, &counting_bytes(total - 16), false).is_ok()
        );
    }
}

#[test]
fn subheader_alone_reads_the_same_as_after_the_common_header() {
    let bytes = counting_bytes(72);
    for t in [0u8, 1, 2] {
        let whole = PciSpecializedHeader::read_subheader(t, &bytes, true).unwrap();
        let part = PciSpecializedHeader::read_subheader(t, &bytes[16..], false).unwrap();
        assert_eq!(whole, part);
    }
}

#[test]
fn generic_header_fields() {
    let b = counting_bytes(64);
    let h = match PciSpecializedHeader::read_subheader(0, &b, true).unwrap() {
        PciSpecializedHeader::GenericDevice(h) => h,
        other => panic!("unexpected header: {other:?}"),
    };
    assert_eq!(
        h.base_addr,
        [
            le32(&b, 0x10),
            le32(&b, 0x14),
            le32(&b, 0x18),
            le32(&b, 0x1C),
            le32(&b, 0x20),
            le32(&b, 0x24)
        ]
    );
    assert_eq!(h.cardbus_cis_ptr, le32(&b, 0x28));
    assert_eq!(h.subsystem_vendor_id, le16(&b, 0x2C));
    assert_eq!(h.subsystem_device_id, le16(&b, 0x2E));
    assert_eq!(h.expansion_rom_base_addr, le32(&b, 0x30));
    assert_eq!(h.capabilities_ptr, le16(&b, 0x34));
    assert_eq!(h.interrupt_line, b[0x3C]);
    assert_eq!(h.interrupt_pin, b[0x3D]);
    assert_eq!(h.min_grant, b[0x3E]);
    assert_eq!(h.max_latency, b[0x3F]);
}

#[test]
fn generic_header_of_the_isa_bridge() {
    let h = match PciSpecializedHeader::read_subheader(0x80, &PCI_HEADER_BYTES, true).unwrap() {
        PciSpecializedHeader::GenericDevice(h) => h,
        other => panic!("unexpected header: {other:?}"),
    };
    assert_eq!(h.base_addr, [0; 6]);
    assert_eq!(h.subsystem_vendor_id, 0);
    assert_eq!(h.subsystem_device_id, 0);
    assert_eq!(h.expansion_rom_base_addr, 0);
    assert_eq!(h.capabilities_ptr, 0xFF00);
    assert_eq!(h.interrupt_line, 0);
    assert_eq!(h.max_latency, 0);
}

#[test]
fn bridge_header_fields() {
    let b = counting_bytes(64);
    let h = match PciSpecializedHeader::read_subheader(1, &b, true).unwrap() {
        PciSpecializedHeader::PciToPciBridge(h) => h,
        other => panic!("unexpected header: {other:?}"),
    };
    assert_eq!(h.base_addr, [le32(&b, 0x10), le32(&b, 0x14)]);
    assert_eq!(h.primary_bus_number, b[0x18]);
    assert_eq!(h.secondary_bus_number, b[0x19]);
    assert_eq!(h.subordinate_bus_number, b[0x1A]);
    assert_eq!(h.secondary_latency_timer, b[0x1B]);
    assert_eq!(h.io_base, b[0x1C]);
    assert_eq!(h.io_limit, b[0x1D]);
    assert_eq!(h.secondary_status, le16(&b, 0x1E));
    assert_eq!(h.memory_base, le16(&b, 0x20));
    assert_eq!(h.memory_limit, le16(&b, 0x22));
    assert_eq!(h.prefetchable_memory_base, le16(&b, 0x24));
    assert_eq!(h.prefetchable_memory_limit, le16(&b, 0x26));
    assert_eq!(h.prefetchable_base_upper_32_bits, le32(&b, 0x28));
    assert_eq!(h.prefetchable_limit_upper_32_bits, le32(&b, 0x2C));
    assert_eq!(h.io_base_upper_16_bits, le16(&b, 0x30));
    assert_eq!(h.io_limit_upper_16_bits, le16(&b, 0x32));
    assert_eq!(h.capability_pointer, le16(&b, 0x34));
    assert_eq!(h.expansion_rom_base_addr, le32(&b, 0x38));
    assert_eq!(h.interrupt_line, b[0x3C]);
    assert_eq!(h.interrupt_pin, b[0x3D]);
    assert_eq!(h.bridge_control, le16(&b, 0x3E));
}

#[test]
fn cardbus_header_fields() {
    let b = counting_bytes(72);
    let h = match PciSpecializedHeader::read_subheader(2, &b, true).unwrap() {
        PciSpecializedHeader::PciToCardbusBridge(h) => h,
        other => panic!("unexpected header: {other:?}"),
    };
    assert_eq!(h.cardbus_socket_exca_base_addr, le32(&b, 0x10));
    assert_eq!(h.offset_of_capabilities_list, b[0x14]);
    assert_eq!(h.secondary_status, le16(&b, 0x16));
    assert_eq!(h.pci_bus_number, b[0x18]);
    assert_eq!(h.cardbus_bus_number, b[0x19]);
    assert_eq!(h.subordinate_bus_number, b[0x1A]);
    assert_eq!(h.cardbus_latency_timer, b[0x1B]);
    assert_eq!(h.memory_base_addr_0, le32(&b, 0x1C));
    assert_eq!(h.memory_limit_0, le32(&b, 0x20));
    assert_eq!(h.memory_base_addr_1, le32(&b, 0x24));
    assert_eq!(h.memory_limit_1, le32(&b, 0x28));
    assert_eq!(h.io_base_addr_0, le32(&b, 0x2C));
    assert_eq!(h.io_limit_0, le32(&b, 0x30));
    assert_eq!(h.io_base_addr_1, le32(&b, 0x34));
    assert_eq!(h.io_limit_1, le32(&b, 0x38));
    assert_eq!(h.interrupt_line, b[0x3C]);
    assert_eq!(h.interrupt_pin, b[0x3D]);
    assert_eq!(h.bridge_control, le16(&b, 0x3E));
    assert_eq!(h.subsystem_device_id, le16(&b, 0x40));
    assert_eq!(h.subsystem_vendor_id, le16(&b, 0x42));
    assert_eq!(h.pc_card_16bit_legacy_mode_base_addr, le32(&b, 0x44));
}

#[test]
fn decoders_through_a_register_buffer() {
    let b = counting_bytes(72);
    let cfg = PciConfigBuffer::new(&b, 0);
    let common = PciCommonHeader::with_pci_cfg(&cfg).unwrap();
    assert_eq!(common, PciCommonHeader::with_bytes(&b).unwrap());
    assert!(PciGenericDeviceHeader::with_pci_cfg(&cfg).is_ok());
    assert!(PciToPciBridgeHeader::with_pci_cfg(&cfg).is_ok());
    assert!(PciToCardbusBridgeHeader::with_pci_cfg(&cfg).is_ok());
    let tail = PciConfigBuffer::new(&b[16..], 16);
    assert_eq!(
        parse_message(&PciCommonHeader::with_pci_cfg(&tail).unwrap_err()),
        "not enough bytes at start of header"
    );
    assert_eq!(
        PciToCardbusBridgeHeader::with_pci_cfg(&tail).unwrap(),
        PciToCardbusBridgeHeader::with_pci_cfg(&cfg).unwrap()
    );
    let short = PciConfigBuffer::new(&b[..64], 0);
    assert_eq!(
        parse_message(&PciToCardbusBridgeHeader::with_pci_cfg(&short).unwrap_err()),
        "not enough bytes at end of header"
    );
}

#[test]
fn headers_clone_equal() {
    let b = counting_bytes(72);
    let c = PciCommonHeader::with_bytes(&b).unwrap();
    assert_eq!(c.clone(), c);
    for t in [0u8, 1, 2] {
        let s = PciSpecializedHeader::read_subheader(t, &b, true).unwrap();
        assert_eq!(s.clone(), s);
    }
}
