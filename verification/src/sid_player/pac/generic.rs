//! Register readers and field writers of the peripheral access layer: a
//! writer holds the value being written, a field proxy sets one field of it
//! and hands the writer back for chaining.
use vstd::prelude::*;

verus! {

/// The low `width` bits set.
pub open spec fn field_mask(width: u8) -> u32 {
    if width >= 32 {
        0xFFFF_FFFFu32
    } else {
        ((1u32 << width) - 1) as u32
    }
}

/// `prev` with the field of `width` bits at `offset` replaced by the low bits of `v`.
pub open spec fn with_field(prev: u32, offset: u8, width: u8, v: u32) -> u32 {
    (prev & !(field_mask(width) << offset)) | ((v & field_mask(width)) << offset)
}

/// The low `width` bits set.
pub fn mask_of(width: u8) -> (m: u32)
    requires
        width <= 32,
    ensures
        m == field_mask(width),
{
    if width >= 32 {
        0xFFFF_FFFF
    } else {
        assert(width < 32 ==> (1u32 << width) >= 1) by (bit_vector);
        (1u32 << width) - 1
    }
}

/// A field update stays within the register's width.
pub proof fn lemma_field_fits(prev: u32, offset: u8, width: u8, v: u32, nbits: u8)
    requires
        1 <= width,
        offset + width <= nbits,
        nbits < 32,
        prev < (1u32 << nbits),
    ensures
        with_field(prev, offset, width, v) < (1u32 << nbits),
{
    let m = field_mask(width);
    assert(m == ((1u32 << width) - 1) as u32);
    assert((prev & !(m << offset)) | ((v & m) << offset) < (1u32 << nbits)) by (bit_vector)
        requires
            1 <= width,
            offset + width <= nbits,
            nbits < 32,
            prev < (1u32 << nbits),
            m == ((1u32 << width) - 1) as u32,
    ;
}

/// A register value under construction.
pub trait RegWriter {
    /// The register value.
    spec fn value(&self) -> u32;

    /// The register width in bits.
    spec fn reg_bits(&self) -> u8;

    /// Replaces the field of `width` bits at `offset` by the low bits of `v`.
    fn update(&mut self, offset: u8, width: u8, v: u32)
        requires
            1 <= width,
            offset + width <= old(self).reg_bits(),
        ensures
            final(self).value() == with_field(old(self).value(), offset, width, v),
            final(self).reg_bits() == old(self).reg_bits(),
    ;
}

/// Writer proxy for a field of up to 8 bits.
pub struct FieldWriter<'a, W> {
    pub w: &'a mut W,
    pub offset: u8,
    pub width: u8,
}

/// Writer proxy for a field of up to 16 bits.
pub struct FieldWriter16<'a, W> {
    pub w: &'a mut W,
    pub offset: u8,
    pub width: u8,
}

/// Writer proxy for a field of up to 32 bits.
pub struct FieldWriter32<'a, W> {
    pub w: &'a mut W,
    pub offset: u8,
    pub width: u8,
}

/// Writer proxy for a one-bit field.
pub struct BitWriter<'a, W> {
    pub w: &'a mut W,
    pub offset: u8,
}

impl<'a, W: RegWriter> FieldWriter<'a, W> {
    /// Writes `value` into the field.
    pub fn bits(self, value: u8) -> (r: &'a mut W)
        requires
            1 <= self.width,
            self.offset + self.width <= self.w.reg_bits(),
        ensures
            r.value() == with_field(old(self.w).value(), self.offset, self.width, value as u32),
            r.reg_bits() == old(self.w).reg_bits(),
            *final(self.w) == *final(r),
    {
        self.w.update(self.offset, self.width, value as u32);
        self.w
    }
}

impl<'a, W: RegWriter> FieldWriter16<'a, W> {
    /// Writes `value` into the field.
    pub fn bits(self, value: u16) -> (r: &'a mut W)
        requires
            1 <= self.width,
            self.offset + self.width <= self.w.reg_bits(),
        ensures
            r.value() == with_field(old(self.w).value(), self.offset, self.width, value as u32),
            r.reg_bits() == old(self.w).reg_bits(),
            *final(self.w) == *final(r),
    {
        self.w.update(self.offset, self.width, value as u32);
        self.w
    }
}

impl<'a, W: RegWriter> FieldWriter32<'a, W> {
    /// Writes `value` into the field.
    pub fn bits(self, value: u32) -> (r: &'a mut W)
        requires
            1 <= self.width,
            self.offset + self.width <= self.w.reg_bits(),
        ensures
            r.value() == with_field(old(self.w).value(), self.offset, self.width, value),
            r.reg_bits() == old(self.w).reg_bits(),
            *final(self.w) == *final(r),
    {
        self.w.update(self.offset, self.width, value);
        self.w
    }
}

impl<'a, W: RegWriter> BitWriter<'a, W> {
    /// Writes `value` into the bit.
    pub fn bit(self, value: bool) -> (r: &'a mut W)
        requires
            self.offset + 1 <= self.w.reg_bits(),
        ensures
            r.value() == with_field(old(self.w).value(), self.offset, 1, if value { 1 } else { 0 }),
            r.reg_bits() == old(self.w).reg_bits(),
            *final(self.w) == *final(r),
    {
        self.w.update(self.offset, 1, if value {
            1
        } else {
            0
        });
        self.w
    }

    /// Sets the bit.
    pub fn set_bit(self) -> (r: &'a mut W)
        requires
            self.offset + 1 <= self.w.reg_bits(),
        ensures
            r.value() == with_field(old(self.w).value(), self.offset, 1, 1),
            r.reg_bits() == old(self.w).reg_bits(),
            *final(self.w) == *final(r),
    {
        self.bit(true)
    }

    /// Clears the bit.
    pub fn clear_bit(self) -> (r: &'a mut W)
        requires
            self.offset + 1 <= self.w.reg_bits(),
        ensures
            r.value() == with_field(old(self.w).value(), self.offset, 1, 0),
            r.reg_bits() == old(self.w).reg_bits(),
            *final(self.w) == *final(r),
    {
        self.bit(false)
    }
}

/// A field value read from a register.
pub struct FieldReader<T> {
    pub bits: T,
}

impl<T: Copy> FieldReader<T> {
    /// The field value.
    pub fn bits(&self) -> (v: T)
        ensures
            v == self.bits,
    {
        self.bits
    }
}

/// A bit read from a register.
pub struct BitReader {
    pub bit: bool,
}

impl BitReader {
    /// The bit.
    pub fn bit(&self) -> (b: bool)
        ensures
            b == self.bit,
    {
        self.bit
    }

    /// Whether the bit is set.
    pub fn bit_is_set(&self) -> (b: bool)
        ensures
            b == self.bit,
    {
        self.bit
    }

    /// Whether the bit is clear.
    pub fn bit_is_clear(&self) -> (b: bool)
        ensures
            b == !self.bit,
    {
        !self.bit
    }
}

} // verus!
