use super::common::{DeviceEntry, DeviceEntryView};
use super::setupapi::parse_windows_id;
use crate::{PciInfoError, PciInfoErrorView};
use vstd::prelude::*;

verus! {

/// The value of a property of a device as WMI hands it out, as far as the
/// enumeration reads it.
pub enum WmiValue {
    /// A text.
    String(String),
    /// A list of values.
    Array(Vec<WmiValue>),
    /// A value of another kind.
    Other,
}

/// The texts among the values, in their order.
pub open spec fn texts_among(values: Seq<WmiValue>) -> Seq<Seq<char>>
    decreases values.len(),
{
    if values.len() == 0 {
        Seq::empty()
    } else {
        match values.last() {
            WmiValue::String(s) => texts_among(values.drop_last()).push(s@),
            _ => texts_among(values.drop_last()),
        }
    }
}

/// The error for a device without the property of the given name.
pub open spec fn property_not_found(name: Seq<char>) -> PciInfoErrorView {
    PciInfoErrorView::ValueNotFound(Some(name))
}

/// The entry that the two lists of identification strings of a device
/// give, or the error for the first of the two that is no list.
pub open spec fn entry_of_wmi_properties(
    hardware_id: Option<&WmiValue>,
    compatible_id: Option<&WmiValue>,
) -> Result<DeviceEntryView, PciInfoErrorView> {
    match hardware_id {
        Some(WmiValue::Array(hwids)) => match compatible_id {
            Some(WmiValue::Array(compids)) => Ok(
                DeviceEntryView::empty().with_ids(texts_among(hwids@)).with_ids(
                    texts_among(compids@),
                ),
            ),
            _ => Err(property_not_found("CompatibleID"@)),
        },
        _ => Err(property_not_found("HardwareID"@)),
    }
}

/// Contributes the texts among the values to the entry, as identification
/// strings of Windows.
fn parse_wmi_ids(de: &mut DeviceEntry, values: &Vec<WmiValue>)
    ensures
        final(de)@ == old(de)@.with_ids(texts_among(values@)),
{
    let mut i: usize = 0;
    while i < values.len()
        invariant
            i <= values.len(),
            de@ == old(de)@.with_ids(texts_among(values@.take(i as int))),
        decreases values.len() - i,
    {
        assert(values@.take(i + 1).drop_last() == values@.take(i as int));
        match &values[i] {
            WmiValue::String(hwid) => {
                let ghost before = texts_among(values@.take(i as int));
                assert(texts_among(values@.take(i + 1)).drop_last() == before);
                parse_windows_id(de, hwid.as_str());
            },
            _ => {},
        }
        i += 1;
    }
    assert(values@.take(values.len() as int) == values@);
}

/// Reads the entry of a device from its properties `HardwareID` and
/// `CompatibleID`, as they were looked up in what WMI gave for the device.
///
/// Fails with `ValueNotFound` and the name of the property where one of the
/// two is missing or is no list, the hardware ids first.
pub fn read_device_from_wmi_properties(
    hardware_id: Option<&WmiValue>,
    compatible_id: Option<&WmiValue>,
) -> (r: Result<DeviceEntry, PciInfoError>)
    ensures
        match entry_of_wmi_properties(hardware_id, compatible_id) {
            Ok(entry) => r is Ok && r->Ok_0@ == entry,
            Err(e) => r is Err && r->Err_0@ == e,
        },
{
    let hwids = match hardware_id {
        Some(WmiValue::Array(hwids)) => hwids,
        _ => {
            return Err(PciInfoError::ValueNotFound(Some("HardwareID".into())));
        },
    };
    let compids = match compatible_id {
        Some(WmiValue::Array(compids)) => compids,
        _ => {
            return Err(PciInfoError::ValueNotFound(Some("CompatibleID".into())));
        },
    };
    let mut de = DeviceEntry::default();
    parse_wmi_ids(&mut de, hwids);
    parse_wmi_ids(&mut de, compids);
    Ok(de)
}

} // verus!
