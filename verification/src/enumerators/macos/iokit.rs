use crate::enumerators::{code_byte, decompose_class_code};
use crate::pci_device::PciDeviceProperties;
use crate::pci_property_result::{is_cast_failure, PropertyResult};
use crate::text::{chars_of, find_char, first_index_of, parse_unsigned, read_unsigned};
use crate::{result_view, PciDevice, PciInfoError, PciInfoErrorView, PciLocation};
use vstd::prelude::*;

verus! {

/// The error for a text that is no location.
pub open spec fn not_a_location(pcidebug: Seq<char>) -> PciInfoErrorView {
    PciInfoErrorView::ParseError("Failed to parse '"@ + pcidebug + "' as a PCI location"@)
}

/// The three numbers of 8 bits that a text holds in decimal, with colons
/// between them and nothing else.
pub open spec fn triplet_of(head: Seq<char>) -> Option<(u8, u8, u8)> {
    let first = first_index_of(head, ':');
    let tail = head.skip(first + 1);
    let second = first_index_of(tail, ':');
    let last = tail.skip(second + 1);
    if first < head.len() && second < tail.len() && first_index_of(last, ':') >= last.len() {
        match (
            parse_unsigned(head.take(first), 10, 0xFF),
            parse_unsigned(tail.take(second), 10, 0xFF),
            parse_unsigned(last, 10, 0xFF),
        ) {
            (Some(bus), Some(dev), Some(fun)) => Some((bus as u8, dev as u8, fun as u8)),
            _ => None,
        }
    } else {
        None
    }
}

/// What the property `pcidebug` of a device stands for: the bus, the device
/// and the function, in decimal with colons between them, before the first
/// opening bracket of the text.
pub open spec fn triplet_of_pcidebug(pcidebug: Seq<char>) -> Option<(u8, u8, u8)> {
    triplet_of(pcidebug.take(first_index_of(pcidebug, '(')))
}

/// The location that the property `pcidebug` of a device stands for, from
/// the outcome of its look-up: the error of the look-up, a `ParseError`
/// that quotes the text where it holds no three numbers,
/// `BdfLocationOutOfRange` where the numbers are no location, and else the
/// location.
pub open spec fn location_of_pcidebug(pcidebug: Result<String, PciInfoErrorView>) -> Result<
    PciLocation,
    PciInfoErrorView,
> {
    match pcidebug {
        Err(e) => Err(e),
        Ok(text) => match triplet_of_pcidebug(text@) {
            None => Err(not_a_location(text@)),
            Some((bus, device, function)) => PciLocation::checked(0, bus, device, function),
        },
    }
}

/// Reads the number of 8 bits that `chars[from..to]` holds in decimal.
fn read_part(chars: &Vec<char>, from: usize, to: usize) -> (r: Option<u8>)
    requires
        from <= to <= chars.len(),
    ensures
        r == (match parse_unsigned(chars@.subrange(from as int, to as int), 10, 0xFF) {
            Some(n) => Some(n as u8),
            None => None,
        }),
{
    match read_unsigned(chars, from, to, 10, 0xFF) {
        Some(n) => Some(n as u8),
        None => None,
    }
}

/// Where the two colons of `chars[..end]` stand, where it holds exactly
/// two.
fn find_two_colons(chars: &Vec<char>, end: usize) -> (r: Option<(usize, usize)>)
    requires
        end <= chars.len(),
    ensures
        ({
            let head = chars@.subrange(0, end as int);
            let first = first_index_of(head, ':');
            let tail = head.skip(first + 1);
            let second = first_index_of(tail, ':');
            let last = tail.skip(second + 1);
            match r {
                Some((a, b)) => {
                    &&& a < b < end
                    &&& a == first
                    &&& b == first + 1 + second
                    &&& first < head.len()
                    &&& second < tail.len()
                    &&& first_index_of(last, ':') >= last.len()
                    &&& head.take(first) == chars@.subrange(0, a as int)
                    &&& tail.take(second) == chars@.subrange(a + 1, b as int)
                    &&& last == chars@.subrange(b + 1, end as int)
                },
                None => !(first < head.len() && second < tail.len() && first_index_of(last, ':')
                    >= last.len()),
            }
        }),
{
    let ghost head = chars@.subrange(0, end as int);
    let first = find_char(chars, 0, end, ':');
    if first == end {
        return None;
    }
    let ghost tail = head.skip(first + 1);
    assert(tail == chars@.subrange(first + 1, end as int));
    let second = find_char(chars, first + 1, end, ':');
    if second == end {
        return None;
    }
    let ghost last = tail.skip(second - first);
    assert(last == chars@.subrange(second + 1, end as int));
    let third = find_char(chars, second + 1, end, ':');
    if third != end {
        return None;
    }
    Some((first, second))
}

/// Reads the three numbers that `chars[..end]` holds.
fn read_triplet(chars: &Vec<char>, end: usize) -> (r: Option<(u8, u8, u8)>)
    requires
        end <= chars.len(),
    ensures
        r == triplet_of(chars@.subrange(0, end as int)),
{
    match find_two_colons(chars, end) {
        None => None,
        Some((first, second)) => {
            let bus = read_part(chars, 0, first);
            let dev = read_part(chars, first + 1, second);
            let fun = read_part(chars, second + 1, end);
            match (bus, dev, fun) {
                (Some(b), Some(d), Some(f)) => Some((b, d, f)),
                _ => None,
            }
        },
    }
}

/// Reads the location of a device from its property `pcidebug`, such as
/// `0:31:3(...)`, as it was looked up in the properties of the device.
///
/// Fails with the error of the look-up, with a `ParseError` that quotes
/// the text where it holds no three numbers, and with
/// `BdfLocationOutOfRange` where the numbers are no location.
pub fn try_parse_location_from_pcidebug(pcidebug: Result<String, PciInfoError>) -> (r: Result<
    PciLocation,
    PciInfoError,
>)
    ensures
        result_view(r) == location_of_pcidebug(result_view(pcidebug)),
{
    let text = match pcidebug {
        Ok(text) => text,
        Err(e) => {
            return Err(e);
        },
    };
    let chars = chars_of(text.as_str());
    let len = chars.len();
    assert(chars@.subrange(0, len as int) == text@);
    let end = find_char(&chars, 0, len, '(');
    match read_triplet(&chars, end) {
        Some((b, d, f)) => PciLocation::with_bdf(b, d, f),
        None => {
            let mut message = String::from_str("Failed to parse '");
            message.append(text.as_str());
            message.append("' as a PCI location");
            Err(PciInfoError::ParseError(message.into()))
        },
    }
}

/// The subsystem id that a property of 32 bits stands for: the number where
/// it was found and fits into 16 bits, and none in any other case.
pub open spec fn subsystem_id_of(property: Result<u32, PciInfoError>) -> Option<u16> {
    match property {
        Ok(v) => if v <= 0xFFFF {
            Some(v as u16)
        } else {
            None
        },
        Err(_) => None,
    }
}

/// The subsystem id that a property of 32 bits stands for.
fn narrow_subsystem_id(property: Result<u32, PciInfoError>) -> (r: Option<u16>)
    ensures
        r == subsystem_id_of(property),
{
    match property {
        Ok(v) => if v <= 0xFFFF {
            Some(v as u16)
        } else {
            None
        },
        Err(_) => None,
    }
}

/// Fills in what the properties `subsystem-vendor-id`, `subsystem-id`,
/// `revision-id` and `class-code` of a device say of it, as they were
/// looked up.
///
/// A subsystem id that was not found, or does not fit, is a device without
/// one, and no failure. The revision fails where it does not fit into 8
/// bits. The class, the subclass and the interface are the three low bytes
/// of the class code, and fail together where it was not found.
pub fn enrich_device(
    dev: &mut PciDevice,
    subsystem_vendor_id: Result<u32, PciInfoError>,
    subsystem_id: Result<u32, PciInfoError>,
    revision_id: Result<u32, PciInfoError>,
    class_code: Result<u32, PciInfoError>,
)
    ensures
        final(dev).vendor_id == old(dev).vendor_id,
        final(dev).device_id == old(dev).device_id,
        final(dev).properties.location == old(dev).properties.location,
        final(dev).properties.os_irq == old(dev).properties.os_irq,
        final(dev).properties.os_driver == old(dev).properties.os_driver,
        final(dev).properties.pci_common_header == old(dev).properties.pci_common_header,
        final(dev).properties.pci_specialized_header == old(dev).properties.pci_specialized_header,
        final(dev).properties.subsystem_vendor_id@ == PropertyResult::<Option<u16>>::present(
            subsystem_id_of(subsystem_vendor_id),
        ),
        final(dev).properties.subsystem_device_id@ == PropertyResult::<Option<u16>>::present(
            subsystem_id_of(subsystem_id),
        ),
        match revision_id {
            Ok(v) => if v <= 0xFF {
                final(dev).properties.revision@ == PropertyResult::<u8>::present(v as u8)
            } else {
                is_cast_failure::<u8, u32>(final(dev).properties.revision@, v)
            },
            Err(e) => final(dev).properties.revision@ == PropertyResult::<u8>::failed(e@),
        },
        match class_code {
            Ok(code) => {
                &&& final(dev).properties.device_class@ == PropertyResult::<u8>::present(
                    code_byte(code, 2),
                )
                &&& final(dev).properties.device_subclass@ == PropertyResult::<u8>::present(
                    code_byte(code, 1),
                )
                &&& final(dev).properties.device_iface@ == PropertyResult::<u8>::present(
                    code_byte(code, 0),
                )
            },
            Err(e) => {
                &&& final(dev).properties.device_class@ == PropertyResult::<u8>::failed(e@)
                &&& final(dev).properties.device_subclass@ == PropertyResult::<u8>::failed(e@)
                &&& final(dev).properties.device_iface@ == PropertyResult::<u8>::failed(e@)
            },
        },
{
    dev.properties.subsystem_vendor_id.set_val(narrow_subsystem_id(subsystem_vendor_id));
    dev.properties.subsystem_device_id.set_val(narrow_subsystem_id(subsystem_id));
    dev.properties.revision.set_res_cast(revision_id);
    match class_code {
        Ok(class_triplet) => {
            let class_triplet = decompose_class_code(class_triplet);
            dev.properties.device_class.set_val(class_triplet.0);
            dev.properties.device_subclass.set_val(class_triplet.1);
            dev.properties.device_iface.set_val(class_triplet.2);
        },
        Err(e) => {
            dev.properties.device_class.set_err(e.clone());
            dev.properties.device_subclass.set_err(e.clone());
            dev.properties.device_iface.set_err(e);
        },
    }
}

/// The device that the properties `vendor-id`, `device-id` and `pcidebug`
/// give, as they were looked up: the low 16 bits of the two ids, and the
/// location or the reason why there is none.
///
/// Without a vendor id or a device id there is no device, and the call
/// fails with the error of the first that is missing.
pub fn create_device(
    vendor_id: Result<u32, PciInfoError>,
    device_id: Result<u32, PciInfoError>,
    location: Result<PciLocation, PciInfoError>,
) -> (r: Result<PciDevice, PciInfoError>)
    ensures
        match (vendor_id, device_id) {
            (Err(e), _) => r is Err && r->Err_0@ == e@,
            (Ok(_), Err(e)) => r is Err && r->Err_0@ == e@,
            (Ok(vendor), Ok(device)) => {
                &&& r is Ok
                &&& r->Ok_0.vendor_id == vendor % 65536
                &&& r->Ok_0.device_id == device % 65536
                &&& r->Ok_0.properties.location@ == PropertyResult::<PciLocation>::of_result(
                    result_view(location),
                )
                &&& r->Ok_0.properties.subsystem_vendor_id@ == PropertyResult::<
                    Option<u16>,
                >::unsupported()
                &&& r->Ok_0.properties.subsystem_device_id@ == PropertyResult::<
                    Option<u16>,
                >::unsupported()
                &&& r->Ok_0.properties.revision@ == PropertyResult::<u8>::unsupported()
                &&& r->Ok_0.properties.device_class@ == PropertyResult::<u8>::unsupported()
                &&& r->Ok_0.properties.device_subclass@ == PropertyResult::<u8>::unsupported()
                &&& r->Ok_0.properties.device_iface@ == PropertyResult::<u8>::unsupported()
                &&& r->Ok_0.properties.os_irq@ == PropertyResult::<Option<u8>>::unsupported()
                &&& r->Ok_0.properties.os_driver@ == PropertyResult::<Option<String>>::unsupported()
                &&& r->Ok_0.properties.pci_common_header@ == PropertyResult::<
                    crate::pci_headers::PciCommonHeader,
                >::unsupported()
                &&& r->Ok_0.properties.pci_specialized_header@ == PropertyResult::<
                    crate::pci_headers::PciSpecializedHeader,
                >::unsupported()
            },
        },
{
    let vendor = match vendor_id {
        Ok(v) => v,
        Err(e) => {
            return Err(e);
        },
    };
    let device = match device_id {
        Ok(v) => v,
        Err(e) => {
            return Err(e);
        },
    };
    let vendor_low: u32 = vendor & 0xFFFF;
    let device_low: u32 = device & 0xFFFF;
    assert(vendor_low == vendor % 65536 && vendor_low < 65536) by (bit_vector)
        requires
            vendor_low == vendor & 0xFFFF,
    ;
    assert(device_low == device % 65536 && device_low < 65536) by (bit_vector)
        requires
            device_low == device & 0xFFFF,
    ;
    let mut properties = PciDeviceProperties::default();
    properties.location = PropertyResult::with_res(location);
    Ok(PciDevice::new(vendor_low as u16, device_low as u16, properties))
}

} // verus!
