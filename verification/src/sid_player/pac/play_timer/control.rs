//! The `control` register of the `play_timer` peripheral.
use vstd::prelude::*;
use crate::sid_player::pac::generic::{BitWriter, RegWriter, lemma_field_fits, mask_of, with_field};

verus! {

/// The register value read back.
pub struct R {
    pub bits: u8,
}

/// The register value being written.
pub struct W {
    pub bits: u8,
}

/// Marker for the `control` register.
#[allow(non_camel_case_types)]
pub struct CONTROL_SPEC;

impl RegWriter for W {
    open spec fn value(&self) -> u32 {
        self.bits as u32
    }

    open spec fn reg_bits(&self) -> u8 {
        8
    }

    fn update(&mut self, offset: u8, width: u8, v: u32) {
        let m = mask_of(width);
        let new = (self.bits as u32 & !(m << offset)) | ((v & m) << offset);
        proof {
            assert((1u32 << 8u8) == 256u32) by (bit_vector);
            lemma_field_fits(self.bits as u32, offset, width, v, 8);
        }
        self.bits = new as u8;
    }
}

impl W {
    /// Bit 0 - reset field.
    pub fn reset(&mut self) -> (f: BitWriter<'_, W>)
        ensures
            f.offset == 0,
            *f.w == *old(self),
            *final(f.w) == *final(self),
    {
        BitWriter { w: self, offset: 0 }
    }

    /// Bit 1 - play_rate field.
    pub fn play_rate(&mut self) -> (f: BitWriter<'_, W>)
        ensures
            f.offset == 1,
            *f.w == *old(self),
            *final(f.w) == *final(self),
    {
        BitWriter { w: self, offset: 1 }
    }

    /// Bit 2 - irq_enable field.
    pub fn irq_enable(&mut self) -> (f: BitWriter<'_, W>)
        ensures
            f.offset == 2,
            *f.w == *old(self),
            *final(f.w) == *final(self),
    {
        BitWriter { w: self, offset: 2 }
    }
}

} // verus!
