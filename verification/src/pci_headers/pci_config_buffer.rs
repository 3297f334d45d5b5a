use crate::{PciInfoError, PciInfoErrorView};
use vstd::prelude::*;

verus! {

/// The size of a register of configuration space, in bytes.
pub const REGISTER_SIZE: usize = 4;

/// The 16-bit value that the two bytes from `at` on stand for, lowest byte
/// first.
pub open spec fn le_u16(bytes: Seq<u8>, at: int) -> int {
    bytes[at] + 256 * bytes[at + 1]
}

/// The 32-bit value that the four bytes from `at` on stand for, lowest byte
/// first.
pub open spec fn le_u32(bytes: Seq<u8>, at: int) -> int {
    bytes[at] + 256 * bytes[at + 1] + 65536 * bytes[at + 2] + 16777216 * bytes[at + 3]
}

/// Configuration space as a sequence of bytes that starts `offset` bytes
/// into the space, read by register.
pub struct RegisterView {
    pub bytes: Seq<u8>,
    pub offset: int,
}

impl RegisterView {
    /// The bytes of a whole header, from register 0 on.
    pub open spec fn whole(bytes: Seq<u8>) -> RegisterView {
        RegisterView { bytes, offset: 0 }
    }

    /// Where the register starts in the bytes.
    pub open spec fn base(self, register: int) -> int {
        4 * register - self.offset
    }

    /// Whether the bytes hold all of the register.
    pub open spec fn covers(self, register: int) -> bool {
        0 <= self.base(register) && self.base(register) + 4 <= self.bytes.len()
    }

    /// The first register that the bytes hold.
    pub open spec fn first_register(self) -> int {
        self.offset / 4
    }

    /// The register after the last one that the bytes hold in full.
    pub open spec fn last_register(self) -> int {
        (self.offset + self.bytes.len()) / 4
    }

    /// Whether no register from `first` to `last` starts before the bytes or
    /// ends after them.
    pub open spec fn available(self, first: int, last: int) -> bool {
        self.first_register() <= first && last < self.last_register()
    }

    /// The register as a 32-bit value.
    pub open spec fn u32_at(self, register: int) -> int {
        le_u32(self.bytes, self.base(register))
    }

    /// The low half of the register.
    pub open spec fn u16_lo(self, register: int) -> int {
        le_u16(self.bytes, self.base(register))
    }

    /// The high half of the register.
    pub open spec fn u16_hi(self, register: int) -> int {
        le_u16(self.bytes, self.base(register) + 2)
    }

    /// The byte of the register in the given lane, lane 0 being the lowest.
    pub open spec fn u8_at(self, register: int, lane: int) -> int {
        self.bytes[self.base(register) + lane] as int
    }

    /// Every register of an available range is covered by the bytes.
    pub proof fn lemma_available_covers(self, first: int, last: int, register: int)
        requires
            self.offset >= 0,
            self.offset % 4 == 0,
            self.available(first, last),
            first <= register <= last,
        ensures
            self.covers(register),
    {
    }

    /// A range whose first and last register are covered by the bytes is
    /// available.
    pub proof fn lemma_covered_is_available(self, first: int, last: int)
        requires
            self.offset >= 0,
            self.offset % 4 == 0,
            first <= last,
            self.covers(first),
            self.covers(last),
        ensures
            self.available(first, last),
    {
    }

    /// A range that starts at or after the first register held is available
    /// exactly when the bytes reach to the end of its last register.
    pub proof fn lemma_available_by_length(self, first: int, last: int)
        requires
            self.offset >= 0,
            self.offset % 4 == 0,
            self.offset <= 4 * first,
        ensures
            self.available(first, last) <==> 4 * (last + 1) <= self.offset + self.bytes.len(),
    {
    }
}

/// The bounds error for a buffer that starts after the first register
/// asked for.
pub open spec fn not_enough_at_start() -> PciInfoErrorView {
    PciInfoErrorView::ParseError("not enough bytes at start of header"@)
}

/// The bounds error for a buffer that ends before the last register asked
/// for.
pub open spec fn not_enough_at_end() -> PciInfoErrorView {
    PciInfoErrorView::ParseError("not enough bytes at end of header"@)
}

/// Whether the error is a bounds error: the one that says that a range of
/// registers is not within the buffer it was asked of.
pub open spec fn is_bounds_error(e: PciInfoErrorView) -> bool {
    e == not_enough_at_start() || e == not_enough_at_end()
}

/// A bounds-checked accessor over the bytes of configuration space,
/// addressed as 4-byte registers. The bytes may start at a register other
/// than 0; the offset of their start is a multiple of the register size.
pub struct PciConfigBuffer<'a> {
    bytes: &'a [u8],
    offset: usize,
}

impl<'a> View for PciConfigBuffer<'a> {
    type V = RegisterView;

    closed spec fn view(&self) -> RegisterView {
        RegisterView { bytes: self.bytes@, offset: self.offset as int }
    }
}

impl<'a> PciConfigBuffer<'a> {
    #[verifier::type_invariant]
    spec fn aligned(self) -> bool {
        self.offset % 4 == 0
    }

    /// Wraps `bytes`, which start `offset` bytes into configuration space.
    pub fn new(bytes: &'a [u8], offset: usize) -> (r: Self)
        requires
            offset % REGISTER_SIZE == 0,
        ensures
            r@ == (RegisterView { bytes: bytes@, offset: offset as int }),
    {
        Self { bytes, offset }
    }

    fn calc_base(&self, register: usize) -> (r: usize)
        requires
            self@.covers(register as int),
        ensures
            r == self@.base(register as int),
            r + 4 <= self@.bytes.len() <= usize::MAX,
    {
        proof {
            use_type_invariant(self);
            assert(self.bytes.len() == self.bytes@.len());
        }
        let first = self.offset / REGISTER_SIZE;
        (register - first) * REGISTER_SIZE
    }

    /// Reads the register as a 32-bit value, lowest byte first.
    pub fn read_u32(&self, register: usize) -> (r: u32)
        requires
            self@.covers(register as int),
        ensures
            r == self@.u32_at(register as int),
    {
        let base = self.calc_base(register);
        let b0: u32 = self.bytes[base] as u32;
        let b1: u32 = self.bytes[base + 1] as u32;
        let b2: u32 = self.bytes[base + 2] as u32;
        let b3: u32 = self.bytes[base + 3] as u32;
        assert((b0 | b1 << 8 | b2 << 16 | b3 << 24) == b0 + 256 * b1 + 65536 * b2 + 16777216 * b3)
            by (bit_vector)
            requires
                b0 < 256,
                b1 < 256,
                b2 < 256,
                b3 < 256,
        ;
        b0 | b1 << 8 | b2 << 16 | b3 << 24
    }

    /// Reads the low half of the register, lowest byte first.
    pub fn read_u16_lo(&self, register: usize) -> (r: u16)
        requires
            self@.covers(register as int),
        ensures
            r == self@.u16_lo(register as int),
    {
        let base = self.calc_base(register);
        let b0: u16 = self.bytes[base] as u16;
        let b1: u16 = self.bytes[base + 1] as u16;
        assert((b0 | b1 << 8) == b0 + 256 * b1) by (bit_vector)
            requires
                b0 < 256,
                b1 < 256,
        ;
        b0 | b1 << 8
    }

    /// Reads the high half of the register, lowest byte first.
    pub fn read_u16_hi(&self, register: usize) -> (r: u16)
        requires
            self@.covers(register as int),
        ensures
            r == self@.u16_hi(register as int),
    {
        let base = self.calc_base(register);
        let b0: u16 = self.bytes[base + 2] as u16;
        let b1: u16 = self.bytes[base + 3] as u16;
        assert((b0 | b1 << 8) == b0 + 256 * b1) by (bit_vector)
            requires
                b0 < 256,
                b1 < 256,
        ;
        b0 | b1 << 8
    }

    /// Reads the byte of the register in lane `offset_in_register`, lane 0
    /// being the lowest.
    pub fn read_u8(&self, register: usize, offset_in_register: usize) -> (r: u8)
        requires
            offset_in_register <= 3,
            self@.covers(register as int),
        ensures
            r == self@.u8_at(register as int, offset_in_register as int),
    {
        let base = self.calc_base(register);
        self.bytes[base + offset_in_register]
    }

    /// Checks that the bytes hold every register from `first_register` to
    /// `last_register_including`.
    ///
    /// Fails with a bounds error: that of [`not_enough_at_start`] where the
    /// bytes start after `first_register`, and else that of
    /// [`not_enough_at_end`] where they end before the end of
    /// `last_register_including`. No byte is read.
    pub fn assert_registers_available(
        &self,
        first_register: usize,
        last_register_including: usize,
    ) -> (r: Result<(), PciInfoError>)
        ensures
            r is Ok <==> self@.available(first_register as int, last_register_including as int),
            r matches Err(e) ==> is_bounds_error(e@) && e@ == (if self@.first_register()
                > first_register {
                not_enough_at_start()
            } else {
                not_enough_at_end()
            }),
            r is Ok ==> forall|register: int|
                first_register <= register <= last_register_including ==> #[trigger] self@.covers(
                    register,
                ),
    {
        proof {
            use_type_invariant(self);
        }
        if self.first_register() > first_register {
            return Err(PciInfoError::ParseError("not enough bytes at start of header".into()));
        }
        if last_register_including >= self.last_register() {
            return Err(PciInfoError::ParseError("not enough bytes at end of header".into()));
        }
        Ok(())
    }

    /// The first register that the bytes hold.
    pub fn first_register(&self) -> (r: usize)
        ensures
            r == self@.first_register(),
    {
        self.offset / REGISTER_SIZE
    }

    /// The register after the last one that the bytes hold in full.
    pub fn last_register(&self) -> (r: usize)
        ensures
            r == self@.last_register(),
    {
        proof {
            use_type_invariant(self);
        }
        self.offset / REGISTER_SIZE + self.bytes.len() / REGISTER_SIZE
    }
}

} // verus!
