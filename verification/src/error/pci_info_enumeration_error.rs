use crate::PciBusNumber;
use crate::PciInfoError;
use crate::text::write_text;
use crate::PciLocation;
use vstd::prelude::*;

verus! {

/// The location at which an enumeration error occurred
#[derive(Copy, Clone, Debug, PartialEq, Eq, Structural)]
pub enum PciDeviceEnumerationErrorLocation {
    /// The PCI location where the error occurred is unknown
    Unknown,
    /// The error occurred at the specified bus
    Bus(PciBusNumber),
    /// The error occurred at the specified PCI location
    Device(PciLocation),
}

/// The impact of an enumeration error
#[derive(Copy, Clone, Debug, PartialEq, Eq, Structural)]
pub enum PciDeviceEnumerationErrorImpact {
    /// The error might have caused an entire PCI bus to be missing
    /// from the enumeration
    Bus,
    /// The error might have caused an entire PCI device to be missing
    /// from the enumeration
    Device,
    /// The error might have caused some properties on a PCI device to be
    /// missing from the enumeration. When these are generated it is
    /// usually not possible to backtrack to which device caused the
    /// properties to be missing. Missing properties will be reported as if
    /// unsupported by the enumerator.
    DeviceProperties,
}

/// A non-fatal error that impacted the enumeration of one or more devices.
#[derive(Debug)]
pub struct PciDeviceEnumerationError {
    impact: PciDeviceEnumerationErrorImpact,
    error: PciInfoError,
    location: PciDeviceEnumerationErrorLocation,
}

impl PciDeviceEnumerationError {
    /// The impact, as a specification value.
    pub closed spec fn spec_impact(&self) -> PciDeviceEnumerationErrorImpact {
        self.impact
    }

    /// The underlying error, as a specification value.
    pub closed spec fn spec_error(&self) -> PciInfoError {
        self.error
    }

    /// The location, as a specification value.
    pub closed spec fn spec_location(&self) -> PciDeviceEnumerationErrorLocation {
        self.location
    }

    /// An error of the given impact, at no known location.
    pub fn new(impact: PciDeviceEnumerationErrorImpact, error: PciInfoError) -> (r: Self)
        ensures
            r.spec_impact() == impact,
            r.spec_error() == error,
            r.spec_location() == PciDeviceEnumerationErrorLocation::Unknown,
    {
        Self { impact, error, location: PciDeviceEnumerationErrorLocation::Unknown }
    }

    /// An error of the given impact, met on the given bus.
    pub fn new_at_bus(
        bus: PciBusNumber,
        impact: PciDeviceEnumerationErrorImpact,
        error: PciInfoError,
    ) -> (r: Self)
        ensures
            r.spec_impact() == impact,
            r.spec_error() == error,
            r.spec_location() == PciDeviceEnumerationErrorLocation::Bus(bus),
    {
        Self { impact, error, location: PciDeviceEnumerationErrorLocation::Bus(bus) }
    }

    /// An error of the given impact, met at the given device.
    pub fn new_at_device(
        loc: PciLocation,
        impact: PciDeviceEnumerationErrorImpact,
        error: PciInfoError,
    ) -> (r: Self)
        ensures
            r.spec_impact() == impact,
            r.spec_error() == error,
            r.spec_location() == PciDeviceEnumerationErrorLocation::Device(loc),
    {
        Self { impact, error, location: PciDeviceEnumerationErrorLocation::Device(loc) }
    }

    /// The impact of this error
    #[verifier::when_used_as_spec(spec_impact)]
    pub fn impact(&self) -> (r: PciDeviceEnumerationErrorImpact)
        ensures
            r == self.spec_impact(),
    {
        self.impact
    }

    /// The underlying error that caused this issue
    pub fn error(&self) -> (r: &PciInfoError)
        ensures
            *r == self.spec_error(),
    {
        &self.error
    }

    /// The location where the issue occurred, if available.
    /// Note that errors often occur before a location can be
    /// determined.
    #[verifier::when_used_as_spec(spec_location)]
    pub fn location(&self) -> (r: PciDeviceEnumerationErrorLocation)
        ensures
            r == self.spec_location(),
    {
        self.location
    }
}

impl PciDeviceEnumerationErrorLocation {
    /// The text that says where an error occurred: nothing for an unknown
    /// location, and else ` at `, the bus or the location, and a blank.
    pub open spec fn text(self) -> Seq<char> {
        match self {
            PciDeviceEnumerationErrorLocation::Unknown => Seq::empty(),
            PciDeviceEnumerationErrorLocation::Bus(l) => " at "@ + l.text() + seq![' '],
            PciDeviceEnumerationErrorLocation::Device(l) => " at "@ + l.text() + seq![' '],
        }
    }

    /// Writes out the text that says where an error occurred.
    pub fn to_text(&self) -> (r: String)
        ensures
            r@ == self.text(),
    {
        match self {
            PciDeviceEnumerationErrorLocation::Unknown => String::new(),
            PciDeviceEnumerationErrorLocation::Bus(l) => {
                let mut out = String::from_str(" at ");
                out.append(l.to_text().as_str());
                crate::text::push_char(&mut out, ' ');
                out
            },
            PciDeviceEnumerationErrorLocation::Device(l) => {
                let mut out = String::from_str(" at ");
                out.append(l.to_text().as_str());
                crate::text::push_char(&mut out, ' ');
                out
            },
        }
    }
}

impl PciDeviceEnumerationErrorImpact {
    /// The text that says what an error may have cost.
    pub open spec fn text(self) -> Seq<char> {
        match self {
            PciDeviceEnumerationErrorImpact::Bus => "pci bus enumeration error"@,
            PciDeviceEnumerationErrorImpact::Device => "pci device enumeration error"@,
            PciDeviceEnumerationErrorImpact::DeviceProperties =>
                "an error might have caused properties to be missing from a pci device"@,
        }
    }
}

impl PciDeviceEnumerationError {
    /// The text that describes the error: what it may have cost, where it
    /// occurred, a colon and the text of the error that caused it.
    pub open spec fn message_text(&self) -> Seq<char> {
        self.spec_impact().text() + self.spec_location().text() + ": "@
            + self.spec_error()@.message()
    }

    /// Writes out the text that describes the error.
    pub fn message(&self) -> (r: String)
        ensures
            r@ == self.message_text(),
    {
        let mut out = match self.impact {
            PciDeviceEnumerationErrorImpact::Bus => String::from_str("pci bus enumeration error"),
            PciDeviceEnumerationErrorImpact::Device => String::from_str(
                "pci device enumeration error",
            ),
            PciDeviceEnumerationErrorImpact::DeviceProperties => String::from_str(
                "an error might have caused properties to be missing from a pci device",
            ),
        };
        out.append(self.location.to_text().as_str());
        out.append(": ");
        out.append(self.error.message().as_str());
        out
    }
}

impl core::fmt::Display for PciDeviceEnumerationError {
    /// Writes the text of [`PciDeviceEnumerationError::message`].
    fn fmt(&self, f: &mut core::fmt::Formatter<'_>) -> core::fmt::Result {
        write_text(f, self.message().as_str())
    }
}

impl std::error::Error for PciDeviceEnumerationError {}

} // verus!
