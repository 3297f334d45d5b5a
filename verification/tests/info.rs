use pci_info::enumerators::linux::LinuxProcFsPciEnumerator;
use pci_info::enumerators::{default_pci_enumerator, DefaultPciEnumerator, PciEnumerator};
use pci_info::{
    PciBusNumber, PciDevice, PciDeviceEnumerationError, PciDeviceEnumerationErrorImpact,
    PciDeviceEnumerationErrorLocation, PciDeviceProperties, PciInfo, PciInfoError, PciLocation,
    PropertyResult,
};

fn device_at(vendor: u16, location: Option<PciLocation>) -> PciDevice {
    let mut p = PciDeviceProperties::default();
    if let Some(l) = location {
        p.location = PropertyResult::with_val(l);
    }
    PciDevice::new(vendor, 0, p)
}

fn loc(bus: u8, device: u8, function: u8) -> PciLocation {
    PciLocation::with_bdf(bus, device, function).unwrap()
}

fn sample() -> PciInfo {
    let mut pi = PciInfo::empty();
    pi.push_device(device_at(1, None));
    pi.push_error(PciDeviceEnumerationError::new(
        PciDeviceEnumerationErrorImpact::Device,
        PciInfoError::UnexpectedEof,
    ));
    pi.push_device(device_at(2, Some(loc(0, 1, 0))));
    pi.push_device(device_at(3, Some(loc(0, 2, 0))));
    pi.push_device(device_at(4, Some(loc(0, 1, 0))));
    pi
}

struct Fixed(u16);

impl PciEnumerator for Fixed {
    fn enumerate_pci(self) -> Result<PciInfo, PciInfoError> {
        if self.0 == 0 {
            Err(PciInfoError::NoDefaultPciEnumeratorForPlatform)
        } else {
            let mut pi = PciInfo::empty();
            pi.push_device(device_at(self.0, None));
            Ok(pi)
        }
    }
}

#[test]
fn info_starts_empty_and_keeps_the_order() {
    let pi = PciInfo::empty();
    assert!(pi.results.is_empty());
    assert!(pi.iter().next().is_none());
    let pi = sample();
    assert_eq!(pi.results.len(), 5);
    let vendors: Vec<Option<u16>> =
        pi.results.iter().map(|r| r.as_ref().ok().map(|d| d.vendor_id())).collect();
    assert_eq!(vendors, vec![Some(1), None, Some(2), Some(3), Some(4)]);
}

#[test]
fn info_iterator_walks_every_result_once() {
    let pi = sample();
    let mut it = pi.iter();
    let mut seen = Vec::new();
    while let Some(item) = it.next() {
        seen.push(match item {
            Ok(d) => d.vendor_id() as i32,
            Err(e) => {
                assert!(matches!(e.error(), PciInfoError::UnexpectedEof));
                -1
            }
        });
    }
    assert_eq!(seen, vec![1, -1, 2, 3, 4]);
    assert!(it.next().is_none());
    assert!(it.next().is_none());
}

#[test]
fn info_finds_the_first_device_at_a_location() {
    let mut pi = sample();
    assert_eq!(pi.find_device_mut(loc(0, 1, 0)).unwrap().vendor_id(), 2);
    assert_eq!(pi.find_device_mut(loc(0, 2, 0)).unwrap().vendor_id(), 3);
    assert!(pi.find_device_mut(loc(0, 3, 0)).is_none());
    assert!(pi.find_device_mut(loc(1, 1, 0)).is_none());
    pi.find_device_mut(loc(0, 1, 0)).unwrap().properties.os_irq.set_val(Some(9));
    assert_eq!(pi.results[2].as_ref().unwrap().os_irq().unwrap(), Some(9));
    assert!(pi.results[4].as_ref().unwrap().os_irq().is_err());
    assert!(PciInfo::empty().find_device_mut(loc(0, 0, 0)).is_none());
}

#[test]
fn info_mutates_devices_and_leaves_errors() {
    let mut pi = sample();
    let mut count = 0;
    pi.mutate_devices(|d| {
        count += 1;
        d.properties.revision.set_val(count);
    });
    assert_eq!(count, 4);
    assert_eq!(pi.results.len(), 5);
    assert!(pi.results[1].is_err());
    let revisions: Vec<u8> = pi
        .results
        .iter()
        .filter_map(|r| r.as_ref().ok())
        .map(|d| d.revision().unwrap())
        .collect();
    assert_eq!(revisions, vec![1, 2, 3, 4]);
}

#[test]
fn info_from_an_enumerator_is_what_the_enumerator_gave() {
    let pi = PciInfo::enumerate_pci_with_enumerator(Fixed(7)).unwrap();
    assert_eq!(pi.results.len(), 1);
    assert_eq!(pi.results[0].as_ref().unwrap().vendor_id(), 7);
    assert!(matches!(
        PciInfo::enumerate_pci_with_enumerator(Fixed(0)),
        Err(PciInfoError::NoDefaultPciEnumeratorForPlatform)
    ));
}

#[test]
fn info_from_the_default_enumerator_or_its_absence() {
    let pi = PciInfo::enumerate_pci(Ok(Fixed(5))).unwrap();
    assert_eq!(pi.results[0].as_ref().unwrap().vendor_id(), 5);
    assert!(matches!(
        PciInfo::enumerate_pci(Err::<Fixed, PciInfoError>(
            PciInfoError::NoDefaultPciEnumeratorForPlatform
        )),
        Err(PciInfoError::NoDefaultPciEnumeratorForPlatform)
    ));
    assert!(matches!(
        PciInfo::enumerate_pci(Ok(Fixed(0))),
        Err(PciInfoError::NoDefaultPciEnumeratorForPlatform)
    ));
}

#[test]
fn enumeration_error_parts() {
    let e = PciDeviceEnumerationError::new(
        PciDeviceEnumerationErrorImpact::Bus,
        PciInfoError::UnexpectedEof,
    );
    assert_eq!(e.impact(), PciDeviceEnumerationErrorImpact::Bus);
    assert_eq!(e.location(), PciDeviceEnumerationErrorLocation::Unknown);
    assert!(matches!(e.error(), PciInfoError::UnexpectedEof));
    let bus = PciBusNumber::with_segment(1, 2);
    let e = PciDeviceEnumerationError::new_at_bus(
        bus,
        PciDeviceEnumerationErrorImpact::Device,
        PciInfoError::UnknownPciHeaderType(9),
    );
    assert_eq!(e.impact(), PciDeviceEnumerationErrorImpact::Device);
    assert_eq!(e.location(), PciDeviceEnumerationErrorLocation::Bus(bus));
    assert!(matches!(e.error(), PciInfoError::UnknownPciHeaderType(9)));
    let l = loc(3, 4, 5);
    let e = PciDeviceEnumerationError::new_at_device(
        l,
        PciDeviceEnumerationErrorImpact::DeviceProperties,
        PciInfoError::DevicesChangedTooManyTimes,
    );
    assert_eq!(e.impact(), PciDeviceEnumerationErrorImpact::DeviceProperties);
    assert_eq!(e.location(), PciDeviceEnumerationErrorLocation::Device(l));
}

#[test]
fn bus_number_parts() {
    let b = PciBusNumber::new(7);
    assert_eq!((b.segment(), b.bus()), (0, 7));
    let b = PciBusNumber::with_segment(0xABCD, 0xEF);
    assert_eq!((b.segment(), b.bus()), (0xABCD, 0xEF));
    assert_eq!(b.to_text(), "ABCD:EF");
    assert_eq!(PciBusNumber::new(0).to_text(), "0000:00");
    assert!(PciBusNumber::new(1) < PciBusNumber::new(2));
    assert!(PciBusNumber::with_segment(1, 0) > PciBusNumber::with_segment(0, 255));
}

#[test]
fn info_by_reference_in_a_for_loop() {
    let pi = sample();
    let mut seen = Vec::new();
    for r in &pi {
        seen.push(r.map(|d| d.vendor_id()).is_ok());
    }
    assert_eq!(seen, vec![true, false, true, true, true]);
    let vendors: Vec<u16> = pi.iter().filter_map(|r| r.ok()).map(|d| d.vendor_id()).collect();
    assert_eq!(vendors, vec![1, 2, 3, 4]);
    assert_eq!(pi.iter().count(), 5);
    assert_eq!(pi.results.len(), 5);
}

#[test]
fn info_into_iterator_hands_out_the_results_in_order() {
    let mut seen = Vec::new();
    for r in sample() {
        seen.push(r.map(|d| d.vendor_id()).map_err(|e| e.impact()));
    }
    assert_eq!(
        seen,
        vec![
            Ok(1),
            Err(PciDeviceEnumerationErrorImpact::Device),
            Ok(2),
            Ok(3),
            Ok(4)
        ]
    );
    assert_eq!(PciInfo::empty().into_iter().count(), 0);
}

#[test]
fn default_enumerator_by_platform() {
    assert_eq!(default_pci_enumerator("windows").unwrap(), DefaultPciEnumerator::WindowsSetupApi);
    assert_eq!(default_pci_enumerator("macos").unwrap(), DefaultPciEnumerator::MacOsIoKit);
    assert_eq!(default_pci_enumerator("freebsd").unwrap(), DefaultPciEnumerator::FreeBsdDevPci);
    assert_eq!(
        default_pci_enumerator("linux").unwrap(),
        DefaultPciEnumerator::LinuxProcFs(LinuxProcFsPciEnumerator::Exhaustive)
    );
    for other in ["", "Linux", "linux ", "android", "openbsd", "ios", "linu", "linuxx"] {
        assert!(matches!(
            default_pci_enumerator(other),
            Err(PciInfoError::NoDefaultPciEnumeratorForPlatform)
        ));
    }
}
