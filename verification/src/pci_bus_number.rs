use crate::text::{push_char, push_upper_hex, upper_hex_text, write_text};
use vstd::prelude::*;

verus! {

/// A bus number in the PCI hierarchy (i.e. a `segment:bus` tuple).
/// The segment (also called domain in some contexts) is usually zero and
/// unsupported by most enumerators.
#[derive(Copy, Clone, Eq, PartialEq, Structural, Ord, PartialOrd, Hash)]
pub struct PciBusNumber {
    segment: u16,
    bus: u8,
}

impl PciBusNumber {
    /// The segment component, as a specification value.
    pub closed spec fn spec_segment(&self) -> u16 {
        self.segment
    }

    /// The bus component, as a specification value.
    pub closed spec fn spec_bus(&self) -> u8 {
        self.bus
    }

    /// The text of the bus number: the segment as four hexadecimal digits,
    /// a colon, and the bus as two.
    pub open spec fn text(&self) -> Seq<char> {
        upper_hex_text(self.spec_segment() as nat, 4) + seq![':'] + upper_hex_text(
            self.spec_bus() as nat,
            2,
        )
    }

    /// Creates a new `PciBusNumber` with an empty segment.
    pub fn new(bus: u8) -> (r: Self)
        ensures
            r.spec_segment() == 0,
            r.spec_bus() == bus,
    {
        Self::with_segment(0, bus)
    }

    /// Creates a new `PciBusNumber` from a segment and a bus.
    pub fn with_segment(segment: u16, bus: u8) -> (r: Self)
        ensures
            r.spec_segment() == segment,
            r.spec_bus() == bus,
    {
        Self { segment, bus }
    }

    /// Gets the bus component of the PCI bus.
    #[verifier::when_used_as_spec(spec_bus)]
    pub fn bus(&self) -> (r: u8)
        ensures
            r == self.spec_bus(),
    {
        self.bus
    }

    /// Gets the segment (sometimes called PCI domain) component
    /// of the PCI bus.
    /// This is zero on most systems as most systems have only
    /// one PCI segment/domain.
    #[verifier::when_used_as_spec(spec_segment)]
    pub fn segment(&self) -> (r: u16)
        ensures
            r == self.spec_segment(),
    {
        self.segment
    }

    /// Writes the bus number out as text.
    pub fn to_text(&self) -> (r: String)
        ensures
            r@ == self.text(),
    {
        let mut out = String::new();
        push_upper_hex(&mut out, self.segment as u64, 4);
        push_char(&mut out, ':');
        push_upper_hex(&mut out, self.bus as u64, 2);
        out
    }
}

impl core::fmt::Debug for PciBusNumber {
    /// Writes the text of [`PciBusNumber::to_text`].
    fn fmt(&self, f: &mut core::fmt::Formatter<'_>) -> core::fmt::Result {
        write_text(f, self.to_text().as_str())
    }
}

impl core::fmt::Display for PciBusNumber {
    /// Writes the text of [`PciBusNumber::to_text`].
    fn fmt(&self, f: &mut core::fmt::Formatter<'_>) -> core::fmt::Result {
        write_text(f, self.to_text().as_str())
    }
}

} // verus!
