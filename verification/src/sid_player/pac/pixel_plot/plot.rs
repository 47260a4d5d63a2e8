//! The `plot` register of the `pixel_plot` peripheral.
use vstd::prelude::*;
use crate::sid_player::pac::generic::{FieldWriter, FieldWriter16, RegWriter, mask_of, with_field};

verus! {

/// The register value read back.
pub struct R {
    pub bits: u32,
}

/// The register value being written.
pub struct W {
    pub bits: u32,
}

/// Marker for the `plot` register.
#[allow(non_camel_case_types)]
pub struct PLOT_SPEC;

impl RegWriter for W {
    open spec fn value(&self) -> u32 {
        self.bits as u32
    }

    open spec fn reg_bits(&self) -> u8 {
        32
    }

    fn update(&mut self, offset: u8, width: u8, v: u32) {
        let m = mask_of(width);
        let new = (self.bits as u32 & !(m << offset)) | ((v & m) << offset);
        self.bits = new;
    }
}

impl W {
    /// Bits 0:11 - x field.
    pub fn x(&mut self) -> (f: FieldWriter16<'_, W>)
        ensures
            f.offset == 0,
            f.width == 12,
            *f.w == *old(self),
            *final(f.w) == *final(self),
    {
        FieldWriter16 { w: self, offset: 0, width: 12 }
    }

    /// Bits 12:23 - y field.
    pub fn y(&mut self) -> (f: FieldWriter16<'_, W>)
        ensures
            f.offset == 12,
            f.width == 12,
            *f.w == *old(self),
            *final(f.w) == *final(self),
    {
        FieldWriter16 { w: self, offset: 12, width: 12 }
    }

    /// Bits 24:31 - pixel field.
    pub fn pixel(&mut self) -> (f: FieldWriter<'_, W>)
        ensures
            f.offset == 24,
            f.width == 8,
            *f.w == *old(self),
            *final(f.w) == *final(self),
    {
        FieldWriter { w: self, offset: 24, width: 8 }
    }
}

} // verus!
