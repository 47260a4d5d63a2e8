//! The `transaction_reg` register of the `i2c0` peripheral.
use vstd::prelude::*;
use crate::sid_player::pac::generic::{BitWriter, FieldWriter, RegWriter, lemma_field_fits, mask_of, with_field};

verus! {

/// The register value read back.
pub struct R {
    pub bits: u16,
}

/// The register value being written.
pub struct W {
    pub bits: u16,
}

/// Marker for the `transaction_reg` register.
#[allow(non_camel_case_types)]
pub struct TRANSACTION_REG_SPEC;

impl RegWriter for W {
    open spec fn value(&self) -> u32 {
        self.bits as u32
    }

    open spec fn reg_bits(&self) -> u8 {
        16
    }

    fn update(&mut self, offset: u8, width: u8, v: u32) {
        let m = mask_of(width);
        let new = (self.bits as u32 & !(m << offset)) | ((v & m) << offset);
        proof {
            assert((1u32 << 16u8) == 65536u32) by (bit_vector);
            lemma_field_fits(self.bits as u32, offset, width, v, 16);
        }
        self.bits = new as u16;
    }
}

impl W {
    /// Bits 0:7 - data field.
    pub fn data(&mut self) -> (f: FieldWriter<'_, W>)
        ensures
            f.offset == 0,
            f.width == 8,
            *f.w == *old(self),
            *final(f.w) == *final(self),
    {
        FieldWriter { w: self, offset: 0, width: 8 }
    }

    /// Bit 8 - rw field.
    pub fn rw(&mut self) -> (f: BitWriter<'_, W>)
        ensures
            f.offset == 8,
            *f.w == *old(self),
            *final(f.w) == *final(self),
    {
        BitWriter { w: self, offset: 8 }
    }

    /// Bit 9 - last field.
    pub fn last(&mut self) -> (f: BitWriter<'_, W>)
        ensures
            f.offset == 9,
            *f.w == *old(self),
            *final(f.w) == *final(self),
    {
        BitWriter { w: self, offset: 9 }
    }
}

} // verus!
