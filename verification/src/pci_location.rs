use crate::text::{push_char, push_upper_hex, upper_hex_text, write_text};
use crate::{result_view, PciBusNumber, PciInfoError, PciInfoErrorView};
use vstd::prelude::*;

verus! {

/// A location in the PCI hierarchy (i.e. a `segment:bus:device.function` tuple).
/// The segment (also called domain in some contexts) is usually zero and
/// unsupported by most enumerators.
///
/// The device is always below 32 and the function below 8.
#[derive(Copy, Clone, Eq, PartialEq, Structural, Ord, PartialOrd, Hash)]
pub struct PciLocation {
    segment: u16,
    bus: u8,
    device: u8,
    function: u8,
}

impl PciLocation {
    #[verifier::type_invariant]
    spec fn in_range(self) -> bool {
        self.device < 32 && self.function < 8
    }

    /// The segment component, as a specification value.
    pub closed spec fn spec_segment(&self) -> u16 {
        self.segment
    }

    /// The bus component, as a specification value.
    pub closed spec fn spec_bus(&self) -> u8 {
        self.bus
    }

    /// The device component, as a specification value.
    pub closed spec fn spec_device(&self) -> u8 {
        self.device
    }

    /// The function component, as a specification value.
    pub closed spec fn spec_function(&self) -> u8 {
        self.function
    }

    /// Two locations with the same four components are the same location.
    pub proof fn lemma_components_determine(a: Self, b: Self)
        requires
            a.spec_segment() == b.spec_segment(),
            a.spec_bus() == b.spec_bus(),
            a.spec_device() == b.spec_device(),
            a.spec_function() == b.spec_function(),
        ensures
            a == b,
    {
    }

    /// The location with the given components.
    pub open spec fn of_parts(segment: u16, bus: u8, device: u8, function: u8) -> Self {
        choose|l: Self|
            l.spec_segment() == segment && l.spec_bus() == bus && l.spec_device() == device
                && l.spec_function() == function
    }

    /// The location with the given components, where the device is below
    /// 32 and the function below 8, and the error that reports the bus, the
    /// device and the function where they are not.
    pub open spec fn checked(segment: u16, bus: u8, device: u8, function: u8) -> Result<
        Self,
        PciInfoErrorView,
    > {
        if device < 32 && function < 8 {
            Ok(Self::of_parts(segment, bus, device, function))
        } else {
            Err(PciInfoErrorView::BdfLocationOutOfRange(bus, device, function))
        }
    }

    /// The location with the given components has these components.
    pub proof fn lemma_of_parts(segment: u16, bus: u8, device: u8, function: u8)
        ensures
            Self::of_parts(segment, bus, device, function).spec_segment() == segment,
            Self::of_parts(segment, bus, device, function).spec_bus() == bus,
            Self::of_parts(segment, bus, device, function).spec_device() == device,
            Self::of_parts(segment, bus, device, function).spec_function() == function,
    {
        let witness = PciLocation { segment, bus, device, function };
        assert(witness.spec_segment() == segment && witness.spec_bus() == bus
            && witness.spec_device() == device && witness.spec_function() == function);
    }

    /// The text of the location: the segment as four hexadecimal digits, the
    /// bus and the device as two each, and the function as one, written
    /// `ssss:bb:dd.f`.
    pub open spec fn text(&self) -> Seq<char> {
        upper_hex_text(self.spec_segment() as nat, 4) + seq![':'] + upper_hex_text(
            self.spec_bus() as nat,
            2,
        ) + seq![':'] + upper_hex_text(self.spec_device() as nat, 2) + seq!['.'] + upper_hex_text(
            self.spec_function() as nat,
            1,
        )
    }

    /// Creates a new `PciLocation` with an empty segment.
    ///
    /// Fails with `BdfLocationOutOfRange` exactly when the device is above 31
    /// or the function above 7.
    pub fn with_bdf(bus: u8, device: u8, function: u8) -> (r: Result<Self, PciInfoError>)
        ensures
            result_view(r) == Self::checked(0, bus, device, function),
            r matches Ok(l) ==> l.spec_segment() == 0 && l.spec_bus() == bus && l.spec_device()
                == device && l.spec_function() == function,
    {
        Self::with_segment(0, bus, device, function)
    }

    /// Creates a new `PciLocation` with an empty segment starting from
    /// a PCI location expressed as a 16bit integer: the bus in the high
    /// byte, then five bits of device and three bits of function.
    pub fn with_bdf_u16(bdf: u16) -> (r: Self)
        ensures
            r.spec_segment() == 0,
            r.spec_bus() == bdf / 256,
            r.spec_device() == (bdf % 256) / 8,
            r.spec_function() == bdf % 8,
            r == Self::of_parts(0, (bdf / 256) as u8, ((bdf % 256) / 8) as u8, (bdf % 8) as u8),
    {
        let bus: u16 = bdf >> 8;
        let device: u16 = (bdf & 0b_1111_1000) >> 3;
        let function: u16 = bdf & 0b_111;
        assert(bus == bdf / 256 && bus < 256) by (bit_vector)
            requires
                bus == bdf >> 8,
        ;
        assert(device == (bdf % 256) / 8 && device < 32) by (bit_vector)
            requires
                device == (bdf & 0b_1111_1000) >> 3,
        ;
        assert(function == bdf % 8 && function < 8) by (bit_vector)
            requires
                function == bdf & 0b_111,
        ;
        let r = Self { segment: 0, bus: bus as u8, device: device as u8, function: function as u8 };
        proof {
            Self::lemma_of_parts(0, bus as u8, device as u8, function as u8);
        }
        r
    }

    /// Creates a new `PciLocation` also specifying the PCI segment.
    ///
    /// Fails with `BdfLocationOutOfRange` exactly when the device is above 31
    /// or the function above 7.
    pub fn with_segment(segment: u16, bus: u8, device: u8, function: u8) -> (r: Result<
        Self,
        PciInfoError,
    >)
        ensures
            result_view(r) == Self::checked(segment, bus, device, function),
            r matches Ok(l) ==> l.spec_segment() == segment && l.spec_bus() == bus
                && l.spec_device() == device && l.spec_function() == function,
    {
        if device >= 32 || function >= 8 {
            Err(PciInfoError::BdfLocationOutOfRange(bus, device, function))
        } else {
            proof {
                Self::lemma_of_parts(segment, bus, device, function);
            }
            Ok(Self { segment, bus, device, function })
        }
    }

    /// Gets the bus component of the PCI location.
    #[verifier::when_used_as_spec(spec_bus)]
    pub fn bus(&self) -> (r: u8)
        ensures
            r == self.spec_bus(),
    {
        self.bus
    }

    /// Gets the bus component of the PCI location as a `PciBusNumber`.
    pub fn bus_number(&self) -> (r: PciBusNumber)
        ensures
            r.spec_segment() == self.spec_segment(),
            r.spec_bus() == self.spec_bus(),
    {
        PciBusNumber::with_segment(self.segment, self.bus)
    }

    /// Gets the device component of the PCI location.
    #[verifier::when_used_as_spec(spec_device)]
    pub fn device(&self) -> (r: u8)
        ensures
            r == self.spec_device(),
            r < 32,
    {
        proof {
            use_type_invariant(self);
        }
        self.device
    }

    /// Gets the function component of the PCI location.
    #[verifier::when_used_as_spec(spec_function)]
    pub fn function(&self) -> (r: u8)
        ensures
            r == self.spec_function(),
            r < 8,
    {
        proof {
            use_type_invariant(self);
        }
        self.function
    }

    /// Gets the segment (sometimes called PCI domain) component
    /// of the PCI location.
    /// This is zero on most systems as most systems have only
    /// one PCI segment/domain.
    #[verifier::when_used_as_spec(spec_segment)]
    pub fn segment(&self) -> (r: u16)
        ensures
            r == self.spec_segment(),
    {
        self.segment
    }

    /// Writes the location out as text.
    pub fn to_text(&self) -> (r: String)
        ensures
            r@ == self.text(),
    {
        let mut out = String::new();
        push_upper_hex(&mut out, self.segment as u64, 4);
        push_char(&mut out, ':');
        push_upper_hex(&mut out, self.bus as u64, 2);
        push_char(&mut out, ':');
        push_upper_hex(&mut out, self.device as u64, 2);
        push_char(&mut out, '.');
        push_upper_hex(&mut out, self.function as u64, 1);
        out
    }
}

impl core::fmt::Debug for PciLocation {
    /// Writes the text of [`PciLocation::to_text`].
    fn fmt(&self, f: &mut core::fmt::Formatter<'_>) -> core::fmt::Result {
        write_text(f, self.to_text().as_str())
    }
}

impl core::fmt::Display for PciLocation {
    /// Writes the text of [`PciLocation::to_text`].
    fn fmt(&self, f: &mut core::fmt::Formatter<'_>) -> core::fmt::Result {
        write_text(f, self.to_text().as_str())
    }
}

} // verus!
