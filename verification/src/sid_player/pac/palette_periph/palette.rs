//! The `palette` register of the `palette_periph` peripheral.
use vstd::prelude::*;
use crate::sid_player::pac::generic::{FieldWriter, RegWriter, mask_of, with_field};

verus! {

/// The register value read back.
pub struct R {
    pub bits: u32,
}

/// The register value being written.
pub struct W {
    pub bits: u32,
}

/// Marker for the `palette` register.
#[allow(non_camel_case_types)]
pub struct PALETTE_SPEC;

impl RegWriter for W {
    open spec fn value(&self) -> u32 {
        self.bits as u32
    }

    open spec fn reg_bits(&self) -> u8 {
        32
    }

    fn update(&mut self, offset: u8, width: u8, v: u32) {
        let m = mask_of(width);
        let new = (self.bits as u32 & !(m << offset)) | ((v & m) << offset);
        self.bits = new;
    }
}

impl W {
    /// Bits 0:7 - position field.
    pub fn position(&mut self) -> (f: FieldWriter<'_, W>)
        ensures
            f.offset == 0,
            f.width == 8,
            *f.w == *old(self),
            *final(f.w) == *final(self),
    {
        FieldWriter { w: self, offset: 0, width: 8 }
    }

    /// Bits 8:15 - red field.
    pub fn red(&mut self) -> (f: FieldWriter<'_, W>)
        ensures
            f.offset == 8,
            f.width == 8,
            *f.w == *old(self),
            *final(f.w) == *final(self),
    {
        FieldWriter { w: self, offset: 8, width: 8 }
    }

    /// Bits 16:23 - green field.
    pub fn green(&mut self) -> (f: FieldWriter<'_, W>)
        ensures
            f.offset == 16,
            f.width == 8,
            *f.w == *old(self),
            *final(f.w) == *final(self),
    {
        FieldWriter { w: self, offset: 16, width: 8 }
    }

    /// Bits 24:31 - blue field.
    pub fn blue(&mut self) -> (f: FieldWriter<'_, W>)
        ensures
            f.offset == 24,
            f.width == 8,
            *f.w == *old(self),
            *final(f.w) == *final(self),
    {
        FieldWriter { w: self, offset: 24, width: 8 }
    }
}

} // verus!
