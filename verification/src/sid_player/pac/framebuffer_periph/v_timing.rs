//! The `v_timing` register of the `framebuffer_periph` peripheral.
use vstd::prelude::*;
use crate::sid_player::pac::generic::{FieldWriter16, RegWriter, mask_of, with_field};

verus! {

/// The register value read back.
pub struct R {
    pub bits: u32,
}

/// The register value being written.
pub struct W {
    pub bits: u32,
}

/// Marker for the `v_timing` register.
#[allow(non_camel_case_types)]
pub struct V_TIMING_SPEC;

impl RegWriter for W {
    open spec fn value(&self) -> u32 {
        self.bits as u32
    }

    open spec fn reg_bits(&self) -> u8 {
        32
    }

    fn update(&mut self, offset: u8, width: u8, v: u32) {
        let m = mask_of(width);
        let new = (self.bits as u32 & !(m << offset)) | ((v & m) << offset);
        self.bits = new;
    }
}

impl W {
    /// Bits 0:15 - v_active field.
    pub fn v_active(&mut self) -> (f: FieldWriter16<'_, W>)
        ensures
            f.offset == 0,
            f.width == 16,
            *f.w == *old(self),
            *final(f.w) == *final(self),
    {
        FieldWriter16 { w: self, offset: 0, width: 16 }
    }

    /// Bits 16:31 - v_sync_start field.
    pub fn v_sync_start(&mut self) -> (f: FieldWriter16<'_, W>)
        ensures
            f.offset == 16,
            f.width == 16,
            *f.w == *old(self),
            *final(f.w) == *final(self),
    {
        FieldWriter16 { w: self, offset: 16, width: 16 }
    }
}

} // verus!
