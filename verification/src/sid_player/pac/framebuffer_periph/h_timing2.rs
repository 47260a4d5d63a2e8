//! The `h_timing2` register of the `framebuffer_periph` peripheral.
use vstd::prelude::*;
use crate::sid_player::pac::generic::{FieldWriter16, RegWriter, mask_of, with_field};

verus! {

/// The register value read back.
pub struct R {
    pub bits: u32,
}

/// The register value being written.
pub struct W {
    pub bits: u32,
}

/// Marker for the `h_timing2` register.
#[allow(non_camel_case_types)]
pub struct H_TIMING2_SPEC;

impl RegWriter for W {
    open spec fn value(&self) -> u32 {
        self.bits as u32
    }

    open spec fn reg_bits(&self) -> u8 {
        32
    }

    fn update(&mut self, offset: u8, width: u8, v: u32) {
        let m = mask_of(width);
        let new = (self.bits as u32 & !(m << offset)) | ((v & m) << offset);
        self.bits = new;
    }
}

impl W {
    /// Bits 0:15 - h_sync_end field.
    pub fn h_sync_end(&mut self) -> (f: FieldWriter16<'_, W>)
        ensures
            f.offset == 0,
            f.width == 16,
            *f.w == *old(self),
            *final(f.w) == *final(self),
    {
        FieldWriter16 { w: self, offset: 0, width: 16 }
    }

    /// Bits 16:31 - h_total field.
    pub fn h_total(&mut self) -> (f: FieldWriter16<'_, W>)
        ensures
            f.offset == 16,
            f.width == 16,
            *f.w == *old(self),
            *final(f.w) == *final(self),
    {
        FieldWriter16 { w: self, offset: 16, width: 16 }
    }
}

} // verus!
