//! The `cal_reg` register of the `pmod0_periph` peripheral.
use vstd::prelude::*;
use crate::sid_player::pac::generic::{BitReader, BitWriter, FieldWriter, RegWriter, lemma_field_fits, mask_of, with_field};

verus! {

/// The register value read back.
pub struct R {
    pub bits: u8,
}

/// The register value being written.
pub struct W {
    pub bits: u8,
}

/// Marker for the `cal_reg` register.
#[allow(non_camel_case_types)]
pub struct CAL_REG_SPEC;

impl RegWriter for W {
    open spec fn value(&self) -> u32 {
        self.bits as u32
    }

    open spec fn reg_bits(&self) -> u8 {
        8
    }

    fn update(&mut self, offset: u8, width: u8, v: u32) {
        let m = mask_of(width);
        let new = (self.bits as u32 & !(m << offset)) | ((v & m) << offset);
        proof {
            assert((1u32 << 8u8) == 256u32) by (bit_vector);
            lemma_field_fits(self.bits as u32, offset, width, v, 8);
        }
        self.bits = new as u8;
    }
}

impl R {
    /// Bit 4 - done field.
    pub fn done(&self) -> (f: BitReader)
        ensures
            f.bit == (((self.bits >> 4) & 1) != 0),
    {
        BitReader { bit: ((self.bits >> 4) & 1) != 0 }
    }
}

impl W {
    /// Bits 0:2 - channel field.
    pub fn channel(&mut self) -> (f: FieldWriter<'_, W>)
        ensures
            f.offset == 0,
            f.width == 3,
            *f.w == *old(self),
            *final(f.w) == *final(self),
    {
        FieldWriter { w: self, offset: 0, width: 3 }
    }

    /// Bit 3 - write field.
    pub fn write(&mut self) -> (f: BitWriter<'_, W>)
        ensures
            f.offset == 3,
            *f.w == *old(self),
            *final(f.w) == *final(self),
    {
        BitWriter { w: self, offset: 3 }
    }
}

} // verus!
