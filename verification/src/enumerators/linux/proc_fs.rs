use crate::pci_device::PciDeviceProperties;
use crate::pci_headers::{PciCommonHeader, PciSpecializedHeader};
use crate::pci_info::{first_device_at, lemma_first_device_at, PciInfo};
use crate::pci_property_result::PropertyResult;
use crate::text::{
    chars_of, find_char, first_index_of, parse_unsigned, quoted_error, read_number, split, trim,
    views_of,
};
use crate::{
    result_view, PciDevice, PciDeviceEnumerationError, PciDeviceEnumerationErrorImpact,
    PciDeviceEnumerationErrorLocation, PciInfoError, PciInfoErrorView, PciInfoPropertyErrorView,
    PciLocation,
};
use vstd::prelude::*;

verus! {

/// What the name of a file stands for as a hexadecimal number of 8 bits,
/// where `what` says what the number is: the number, or a `ParseError` that
/// names `what` and quotes the name.
pub open spec fn hex_id(what: Seq<char>, name: Seq<char>) -> Result<u8, PciInfoErrorView> {
    match parse_unsigned(name, 16, 0xFF) {
        Some(n) => Ok(n as u8),
        None => Err(
            PciInfoErrorView::ParseError(what + " id is invalid hex: '"@ + name + seq!['\'']),
        ),
    }
}

/// The error for the name of a file that is not text.
pub open spec fn invalid_code() -> PciInfoErrorView {
    PciInfoErrorView::ParseError("bus id has invalid code"@)
}

/// What the name of the directory of a bus stands for: the number of the
/// bus, in hexadecimal.
pub open spec fn bus_id_of(filename: Option<&str>) -> Result<u8, PciInfoErrorView> {
    match filename {
        None => Err(invalid_code()),
        Some(name) => hex_id("bus"@, name@),
    }
}

/// What the name of the file of a device stands for: the slot and the
/// function, in hexadecimal, with a dot between them.
pub open spec fn slot_and_func_of(filename: Option<&str>) -> Result<(u8, u8), PciInfoErrorView> {
    match filename {
        None => Err(invalid_code()),
        Some(name) => {
            let at = first_index_of(name@, '.');
            if !(0 <= at < name@.len()) {
                Err(
                    PciInfoErrorView::ParseError(
                        "slot id is invalid pattern, hh.h expected: '"@ + name@ + seq!['\''],
                    ),
                )
            } else {
                match hex_id("slot"@, name@.take(at)) {
                    Err(e) => Err(e),
                    Ok(slot) => match hex_id("func"@, name@.skip(at + 1)) {
                        Err(e) => Err(e),
                        Ok(func) => Ok((slot, func)),
                    },
                }
            }
        },
    }
}

/// Reads a number of 8 bits in hexadecimal, or says of `what` that it is
/// no such number.
fn read_hex_id(what: &str, name: &str) -> (r: Result<u8, PciInfoError>)
    ensures
        result_view(r) == hex_id(what@, name@),
{
    match read_number(name, 16, 0xFF) {
        Some(n) => Ok(n as u8),
        None => {
            let mut prefix = String::from_str(what);
            prefix.append(" id is invalid hex: '");
            let e = quoted_error(prefix.as_str(), name);
            Err(e)
        },
    }
}

/// Reads the slot and the function of a device from the name of its file
/// under the directory of its bus, where the name is text.
pub fn parse_slot_and_func(filename: Option<&str>) -> (r: Result<(u8, u8), PciInfoError>)
    ensures
        result_view(r) == slot_and_func_of(filename),
{
    let name = match filename {
        Some(name) => name,
        None => {
            return Err(PciInfoError::ParseError("bus id has invalid code".into()));
        },
    };
    let chars = chars_of(name);
    let len = chars.len();
    assert(chars@.subrange(0, len as int) == name@);
    let at = find_char(&chars, 0, len, '.');
    if at == len {
        return Err(quoted_error("slot id is invalid pattern, hh.h expected: '", name));
    }
    let slot_str = name.substring_char(0, at);
    let func_str = name.substring_char(at + 1, len);
    let slot = match read_hex_id("slot", slot_str) {
        Ok(v) => v,
        Err(e) => {
            return Err(e);
        },
    };
    let func = match read_hex_id("func", func_str) {
        Ok(v) => v,
        Err(e) => {
            return Err(e);
        },
    };
    Ok((slot, func))
}

/// Reads the number of a bus from the name of its directory, where the
/// name is text.
pub fn parse_bus_id(filename: Option<&str>) -> (r: Result<u8, PciInfoError>)
    ensures
        result_view(r) == bus_id_of(filename),
{
    match filename {
        Some(name) => read_hex_id("bus", name),
        None => Err(PciInfoError::ParseError("bus id has invalid code".into())),
    }
}

/// One line of the devices file: a device and what the kernel says of it.
pub struct DeviceFileEntry {
    pub location: PciLocation,
    pub vendor_id: u16,
    pub device_id: u16,
    pub irq: Option<u8>,
    pub kernel_driver: Option<String>,
}

impl DeviceFileEntry {
    /// Why the fields of a line stand for no device, where they do not:
    /// there are fewer than four, the first is no hexadecimal number of 16
    /// bits, or the second none of 32 bits.
    pub open spec fn failure(fields: Seq<Seq<char>>) -> Option<PciInfoErrorView> {
        if fields.len() < 4 {
            Some(PciInfoErrorView::ParseError("devices file line has not enough entries"@))
        } else if parse_unsigned(fields[0], 16, 0xFFFF) is None {
            Some(
                PciInfoErrorView::ParseError(
                    "bus id in devices file is invalid hex: '"@ + fields[0] + seq!['\''],
                ),
            )
        } else if parse_unsigned(fields[1], 16, 0xFFFF_FFFF) is None {
            Some(
                PciInfoErrorView::ParseError(
                    "device+vendor id in devices file is invalid hex: '"@ + fields[1] + seq![
                        '\'',
                    ],
                ),
            )
        } else {
            None
        }
    }

    /// The interrupt line that the third field stands for: a hexadecimal
    /// number of 8 bits that is not zero.
    pub open spec fn irq_of(field: Seq<char>) -> Option<u8> {
        match parse_unsigned(field, 16, 0xFF) {
            Some(n) => if n != 0 {
                Some(n as u8)
            } else {
                None
            },
            None => None,
        }
    }

    /// The name of the driver: the eighteenth field, where there is one and
    /// it is not empty.
    pub open spec fn driver_of(fields: Seq<Seq<char>>) -> Option<Seq<char>> {
        if fields.len() > 17 && fields[17].len() > 0 {
            Some(fields[17])
        } else {
            None
        }
    }

    /// Whether this entry is what the fields of a line stand for. The first
    /// field is the location: the bus in its high byte, then five bits of
    /// device and three of function. The second is the vendor id in its
    /// high half and the device id in its low half.
    pub open spec fn holds(&self, fields: Seq<Seq<char>>) -> bool {
        let bdf = parse_unsigned(fields[0], 16, 0xFFFF)->Some_0;
        let pci_id = parse_unsigned(fields[1], 16, 0xFFFF_FFFF)->Some_0;
        &&& self.location.spec_segment() == 0
        &&& self.location.spec_bus() == bdf / 256
        &&& self.location.spec_device() == (bdf % 256) / 8
        &&& self.location.spec_function() == bdf % 8
        &&& self.vendor_id == pci_id / 65536
        &&& self.device_id == pci_id % 65536
        &&& self.irq == Self::irq_of(fields[2])
        &&& self.kernel_driver.deep_view() == Self::driver_of(fields)
    }

    /// Reads an entry from the fields of one line of the devices file.
    pub fn new(fields: Vec<&str>) -> (r: Result<Self, PciInfoError>)
        ensures
            match Self::failure(views_of(fields@)) {
                Some(e) => r is Err && r->Err_0@ == e,
                None => r is Ok && r->Ok_0.holds(views_of(fields@)),
            },
    {
        if fields.len() < 4 {
            return Err(PciInfoError::ParseError("devices file line has not enough entries".into()));
        }
        let bdf = match read_number(fields[0], 16, 0xFFFF) {
            Some(v) => v,
            None => {
                return Err(quoted_error("bus id in devices file is invalid hex: '", fields[0]));
            },
        };
        let location = PciLocation::with_bdf_u16(bdf as u16);
        let pci_id = match read_number(fields[1], 16, 0xFFFF_FFFF) {
            Some(v) => v,
            None => {
                return Err(
                    quoted_error("device+vendor id in devices file is invalid hex: '", fields[1]),
                );
            },
        };
        let high: u32 = pci_id >> 16;
        let low: u32 = pci_id & 0xFFFF;
        assert(high == pci_id / 65536 && high < 65536) by (bit_vector)
            requires
                high == pci_id >> 16,
        ;
        assert(low == pci_id % 65536 && low < 65536) by (bit_vector)
            requires
                low == pci_id & 0xFFFF,
        ;
        let irq = match read_number(fields[2], 16, 0xFF) {
            Some(v) => if v != 0 {
                Some(v as u8)
            } else {
                None
            },
            None => None,
        };
        let kernel_driver = if fields.len() > 17 {
            let name: &str = fields[17];
            if name.unicode_len() > 0 {
                Some(String::from_str(name))
            } else {
                None
            }
        } else {
            None
        };
        Ok(Self { location, vendor_id: high as u16, device_id: low as u16, irq, kernel_driver })
    }
}

/// The fields of one line of the devices file: what the tabulators part
/// from each other, each without the white space at its start and at its
/// end.
pub fn split_device_line(line: &str) -> (r: Vec<&str>)
    ensures
        views_of(r@) == split(line@, '\t').map_values(|p: Seq<char>| trim(p)),
{
    crate::text::split_trimmed(line, '\t')
}

/// The outcome of reading the specialized header of a device whose common
/// header has the given type, once the bytes of the header have been read
/// into `buffer`, or could not be.
///
/// A header of unknown type fails with `UnknownPciHeaderType` whatever was
/// read. For a known type a failed read fails with its own error, and what
/// was read is decoded as [`PciSpecializedHeader::read_subheader`] says.
pub fn specialized_from_read(header_type: u8, buffer: &[u8], read: Result<(), PciInfoError>) -> (r:
    Result<PciSpecializedHeader, PciInfoError>)
    ensures
        match PciSpecializedHeader::length_of_kind(PciSpecializedHeader::kind_of(header_type)) {
            None => r is Err && r->Err_0@ == PciInfoErrorView::UnknownPciHeaderType(header_type),
            Some(length) => match read {
                Err(e) => r is Err && r->Err_0@ == e@,
                Ok(_) => if buffer@.len() >= length {
                    r is Ok && r->Ok_0.decodes(
                        PciSpecializedHeader::kind_of(header_type),
                        crate::pci_headers::RegisterView::whole(buffer@),
                    )
                } else {
                    r is Err && r->Err_0@ == crate::pci_headers::not_enough_at_end()
                },
            },
        },
{
    match PciSpecializedHeader::length_of_subheader(header_type) {
        Some(_) => match read {
            Ok(()) => PciSpecializedHeader::read_subheader(header_type, buffer, true),
            Err(e) => Err(e),
        },
        None => Err(PciInfoError::UnknownPciHeaderType(header_type)),
    }
}

/// The device that the headers read from the file of a device describe, at
/// the location that the name of the file gave. `specialized` is the
/// outcome of reading the specialized header, or nothing where it was not
/// asked for.
pub fn device_from_headers(
    location: Result<PciLocation, PciInfoError>,
    header: PciCommonHeader,
    specialized: Option<Result<PciSpecializedHeader, PciInfoError>>,
) -> (r: PciDevice)
    ensures
        r.vendor_id == header.vendor_id,
        r.device_id == header.device_id,
        r.properties.location@ == PropertyResult::<PciLocation>::of_result(result_view(location)),
        r.properties.revision@ == PropertyResult::<u8>::present(header.revision_id),
        r.properties.device_class@ == PropertyResult::<u8>::present(header.class_code),
        r.properties.device_subclass@ == PropertyResult::<u8>::present(header.subclass_code),
        r.properties.device_iface@ == PropertyResult::<u8>::present(header.prog_iface_code),
        r.properties.pci_common_header@ == PropertyResult::<PciCommonHeader>::present(header),
        r.properties.os_irq@ == PropertyResult::<Option<u8>>::unsupported(),
        r.properties.os_driver@ == PropertyResult::<Option<String>>::unsupported(),
        r.holds_specialized_header(
            match specialized {
                Some(Ok(h)) => Ok(h),
                Some(Err(e)) => Err(PciInfoPropertyErrorView::Error(e@)),
                None => Err(PciInfoPropertyErrorView::Unsupported),
            },
        ),
{
    let mut device = match specialized {
        Some(s) => PciDevice::from_pci_header_result(header, s),
        None => PciDevice::from_pci_header_set(header, None),
    };
    device.properties.location.set_res(location);
    device
}

/// Whether the two devices are the same but for the interrupt line and the
/// driver that the OS gave them.
pub open spec fn same_but_os_properties(before: PciDevice, after: PciDevice) -> bool {
    &&& after.vendor_id == before.vendor_id
    &&& after.device_id == before.device_id
    &&& after.properties.location == before.properties.location
    &&& after.properties.subsystem_vendor_id == before.properties.subsystem_vendor_id
    &&& after.properties.subsystem_device_id == before.properties.subsystem_device_id
    &&& after.properties.revision == before.properties.revision
    &&& after.properties.device_class == before.properties.device_class
    &&& after.properties.device_subclass == before.properties.device_subclass
    &&& after.properties.device_iface == before.properties.device_iface
    &&& after.properties.pci_common_header == before.properties.pci_common_header
    &&& after.properties.pci_specialized_header == before.properties.pci_specialized_header
}

/// Whether `err` is an error without a location, of the given impact and
/// with the content `error`.
pub open spec fn is_error_of(
    err: PciDeviceEnumerationError,
    impact: PciDeviceEnumerationErrorImpact,
    error: PciInfoErrorView,
) -> bool {
    &&& err.spec_impact() == impact
    &&& err.spec_error()@ == error
    &&& err.spec_location() == PciDeviceEnumerationErrorLocation::Unknown
}

/// Whether `after` is what the results `before` become when one line of the
/// devices file is merged into them.
///
/// A line that could not be read adds an error that may have cost a device
/// some properties. A line that was read gives its interrupt line and its
/// driver to the first device at its location, and changes nothing where
/// there is no device there.
pub open spec fn merge_step(
    before: Seq<Result<PciDevice, PciDeviceEnumerationError>>,
    entry: Result<DeviceFileEntry, PciInfoError>,
    after: Seq<Result<PciDevice, PciDeviceEnumerationError>>,
) -> bool {
    match entry {
        Err(e) => {
            &&& after.len() == before.len() + 1
            &&& after.take(before.len() as int) == before
            &&& after.last() is Err
            &&& is_error_of(
                after.last()->Err_0,
                PciDeviceEnumerationErrorImpact::DeviceProperties,
                e@,
            )
        },
        Ok(line) => {
            let at = first_device_at(before, line.location);
            if at < before.len() {
                &&& after.len() == before.len()
                &&& forall|j: int| 0 <= j < before.len() && j != at ==> after[j] == before[j]
                &&& after[at] is Ok
                &&& same_but_os_properties(before[at]->Ok_0, after[at]->Ok_0)
                &&& after[at]->Ok_0.properties.os_irq@ == PropertyResult::<Option<u8>>::present(
                    line.irq,
                )
                &&& after[at]->Ok_0.properties.os_driver@ == PropertyResult::<
                    Option<String>,
                >::present(line.kernel_driver)
            } else {
                after == before
            }
        },
    }
}

/// Whether `after` is what the results `before` become when the lines are
/// merged into them one after the other, from the first to the last.
pub open spec fn merge_steps(
    before: Seq<Result<PciDevice, PciDeviceEnumerationError>>,
    entries: Seq<Result<DeviceFileEntry, PciInfoError>>,
    after: Seq<Result<PciDevice, PciDeviceEnumerationError>>,
) -> bool
    decreases entries.len(),
{
    if entries.len() == 0 {
        after == before
    } else {
        exists|mid: Seq<Result<PciDevice, PciDeviceEnumerationError>>|
            merge_steps(before, entries.drop_last(), mid) && merge_step(mid, entries.last(), after)
    }
}

/// Whether `after` is what the results `before` become when the devices
/// file could not be read: every device fails to say its interrupt line
/// and its driver, with the error of the file, and is otherwise as it was.
pub open spec fn fails_os_properties(
    before: Seq<Result<PciDevice, PciDeviceEnumerationError>>,
    error: PciInfoErrorView,
    after: Seq<Result<PciDevice, PciDeviceEnumerationError>>,
) -> bool {
    &&& after.len() == before.len()
    &&& forall|j: int|
        0 <= j < before.len() ==> match (#[trigger] before[j]) {
            Err(_) => after[j] == before[j],
            Ok(d) => {
                &&& after[j] is Ok
                &&& same_but_os_properties(d, after[j]->Ok_0)
                &&& after[j]->Ok_0.properties.os_irq@ == PropertyResult::<Option<u8>>::failed(
                    error,
                )
                &&& after[j]->Ok_0.properties.os_driver@ == PropertyResult::<
                    Option<String>,
                >::failed(error)
            },
        }
}

/// Whether `result` is what one line of the devices file becomes where no
/// headers were read: a device with its ids, its location, its interrupt
/// line and its driver and nothing else, or the error of the line as one
/// that cost a device.
pub open spec fn is_entry_result(
    entry: Result<DeviceFileEntry, PciInfoError>,
    result: Result<PciDevice, PciDeviceEnumerationError>,
) -> bool {
    match entry {
        Err(e) => result is Err && is_error_of(
            result->Err_0,
            PciDeviceEnumerationErrorImpact::Device,
            e@,
        ),
        Ok(line) => {
            &&& result is Ok
            &&& result->Ok_0.vendor_id == line.vendor_id
            &&& result->Ok_0.device_id == line.device_id
            &&& result->Ok_0.properties.location@ == PropertyResult::<PciLocation>::present(
                line.location,
            )
            &&& result->Ok_0.properties.os_irq@ == PropertyResult::<Option<u8>>::present(line.irq)
            &&& result->Ok_0.properties.os_driver@ == PropertyResult::<Option<String>>::present(
                line.kernel_driver,
            )
            &&& result->Ok_0.properties.subsystem_vendor_id@ == PropertyResult::<
                Option<u16>,
            >::unsupported()
            &&& result->Ok_0.properties.subsystem_device_id@ == PropertyResult::<
                Option<u16>,
            >::unsupported()
            &&& result->Ok_0.properties.revision@ == PropertyResult::<u8>::unsupported()
            &&& result->Ok_0.properties.device_class@ == PropertyResult::<u8>::unsupported()
            &&& result->Ok_0.properties.device_subclass@ == PropertyResult::<u8>::unsupported()
            &&& result->Ok_0.properties.device_iface@ == PropertyResult::<u8>::unsupported()
            &&& result->Ok_0.properties.pci_common_header@ == PropertyResult::<
                PciCommonHeader,
            >::unsupported()
            &&& result->Ok_0.properties.pci_specialized_header@ == PropertyResult::<
                PciSpecializedHeader,
            >::unsupported()
        },
    }
}

/// Merges one line of the devices file into the devices that the headers
/// gave.
pub fn merge_device_file_entry(pi: &mut PciInfo, entry: Result<DeviceFileEntry, PciInfoError>)
    ensures
        merge_step(old(pi).results@, entry, final(pi).results@),
{
    match entry {
        Ok(line) => {
            proof {
                lemma_first_device_at(pi.results@, line.location);
            }
            let DeviceFileEntry { location, vendor_id: _, device_id: _, irq, kernel_driver } = line;
            match pi.find_device_mut(location) {
                Some(dev) => {
                    dev.properties.os_driver.set_val(kernel_driver);
                    dev.properties.os_irq.set_val(irq);
                },
                None => {},
            }
        },
        Err(e) => {
            pi.push_error(
                PciDeviceEnumerationError::new(
                    PciDeviceEnumerationErrorImpact::DeviceProperties,
                    e,
                ),
            );
            assert(pi.results@.take(old(pi).results@.len() as int) == old(pi).results@);
        },
    }
}

/// Makes every device fail to say its interrupt line and its driver, with
/// the error that kept the devices file from being read.
pub fn fail_os_properties(pi: &mut PciInfo, error: &PciInfoError)
    ensures
        fails_os_properties(old(pi).results@, error@, final(pi).results@),
{
    let mut i: usize = 0;
    while i < pi.results.len()
        invariant
            i <= pi.results@.len(),
            pi.results@.len() == old(pi).results@.len(),
            forall|j: int| i <= j < pi.results@.len() ==> pi.results@[j] == old(pi).results@[j],
            forall|j: int|
                0 <= j < i ==> match (#[trigger] old(pi).results@[j]) {
                    Err(_) => pi.results@[j] == old(pi).results@[j],
                    Ok(d) => {
                        &&& pi.results@[j] is Ok
                        &&& same_but_os_properties(d, pi.results@[j]->Ok_0)
                        &&& pi.results@[j]->Ok_0.properties.os_irq@ == PropertyResult::<
                            Option<u8>,
                        >::failed(error@)
                        &&& pi.results@[j]->Ok_0.properties.os_driver@ == PropertyResult::<
                            Option<String>,
                        >::failed(error@)
                    },
                },
        decreases pi.results.len() - i,
    {
        match &mut pi.results[i] {
            Ok(dev) => {
                dev.properties.os_driver.set_err(error.clone());
                dev.properties.os_irq.set_err(error.clone());
            },
            Err(_) => {},
        }
        i += 1;
    }
}

/// Merges what the devices file said into the devices that the headers
/// gave: its lines one after the other where it was read, and its error
/// into every device where it was not.
pub fn merge_device_file(
    pi: &mut PciInfo,
    entries: Result<Vec<Result<DeviceFileEntry, PciInfoError>>, PciInfoError>,
)
    ensures
        match entries {
            Ok(lines) => merge_steps(old(pi).results@, lines@, final(pi).results@),
            Err(e) => fails_os_properties(old(pi).results@, e@, final(pi).results@),
        },
{
    match entries {
        Ok(lines) => {
            let ghost all = lines@;
            for entry in it: lines.into_iter()
                invariant
                    it.seq() == all,
                    merge_steps(old(pi).results@, all.take(it.index() as int), pi.results@),
            {
                let ghost n = it.index() as int;
                merge_device_file_entry(pi, entry);
                assert(all.take(n + 1).drop_last() == all.take(n));
                assert(all.take(n + 1).last() == entry);
            }
            assert(all.take(all.len() as int) == all);
        },
        Err(e) => fail_os_properties(pi, &e),
    }
}

/// Adds what the lines of the devices file stand for where no headers were
/// read: for each line, in their order, its device or its error.
pub fn push_device_file_entries(
    pi: &mut PciInfo,
    entries: Vec<Result<DeviceFileEntry, PciInfoError>>,
)
    ensures
        final(pi).results@.len() == old(pi).results@.len() + entries@.len(),
        final(pi).results@.take(old(pi).results@.len() as int) == old(pi).results@,
        forall|i: int|
            0 <= i < entries@.len() ==> is_entry_result(
                #[trigger] entries@[i],
                final(pi).results@[old(pi).results@.len() + i],
            ),
{
    let ghost all = entries@;
    let ghost start = pi.results@.len() as int;
    for entry in it: entries.into_iter()
        invariant
            it.seq() == all,
            start == old(pi).results@.len(),
            pi.results@.len() == start + it.index(),
            pi.results@.take(start) == old(pi).results@,
            forall|i: int|
                0 <= i < it.index() ==> is_entry_result(
                    #[trigger] all[i],
                    pi.results@[start + i],
                ),
    {
        match entry {
            Ok(d) => {
                let mut properties = PciDeviceProperties::default();
                properties.location = PropertyResult::with_val(d.location);
                properties.os_irq = PropertyResult::with_val(d.irq);
                properties.os_driver = PropertyResult::with_val(d.kernel_driver);
                pi.push_device(PciDevice::new(d.vendor_id, d.device_id, properties));
            },
            Err(e) => {
                pi.push_error(
                    PciDeviceEnumerationError::new(PciDeviceEnumerationErrorImpact::Device, e),
                );
            },
        }
    }
}

} // verus!
