//! The `hv_timing` register of the `framebuffer_periph` peripheral.
use vstd::prelude::*;
use crate::sid_player::pac::generic::{BitWriter, FieldWriter32, RegWriter, mask_of, with_field};

verus! {

/// The register value read back.
pub struct R {
    pub bits: u32,
}

/// The register value being written.
pub struct W {
    pub bits: u32,
}

/// Marker for the `hv_timing` register.
#[allow(non_camel_case_types)]
pub struct HV_TIMING_SPEC;

impl RegWriter for W {
    open spec fn value(&self) -> u32 {
        self.bits as u32
    }

    open spec fn reg_bits(&self) -> u8 {
        32
    }

    fn update(&mut self, offset: u8, width: u8, v: u32) {
        let m = mask_of(width);
        let new = (self.bits as u32 & !(m << offset)) | ((v & m) << offset);
        self.bits = new;
    }
}

impl W {
    /// Bit 0 - h_sync_invert field.
    pub fn h_sync_invert(&mut self) -> (f: BitWriter<'_, W>)
        ensures
            f.offset == 0,
            *f.w == *old(self),
            *final(f.w) == *final(self),
    {
        BitWriter { w: self, offset: 0 }
    }

    /// Bit 1 - v_sync_invert field.
    pub fn v_sync_invert(&mut self) -> (f: BitWriter<'_, W>)
        ensures
            f.offset == 1,
            *f.w == *old(self),
            *final(f.w) == *final(self),
    {
        BitWriter { w: self, offset: 1 }
    }

    /// Bits 2:31 - active_pixels field.
    pub fn active_pixels(&mut self) -> (f: FieldWriter32<'_, W>)
        ensures
            f.offset == 2,
            f.width == 30,
            *f.w == *old(self),
            *final(f.w) == *final(self),
    {
        FieldWriter32 { w: self, offset: 2, width: 30 }
    }
}

} // verus!
