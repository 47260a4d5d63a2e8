//! The `cal_b` register of the `pmod0_periph` peripheral.
use vstd::prelude::*;
use crate::sid_player::pac::generic::{FieldWriter32, RegWriter, mask_of, with_field};

verus! {

/// The register value read back.
pub struct R {
    pub bits: u32,
}

/// The register value being written.
pub struct W {
    pub bits: u32,
}

/// Marker for the `cal_b` register.
#[allow(non_camel_case_types)]
pub struct CAL_B_SPEC;

impl RegWriter for W {
    open spec fn value(&self) -> u32 {
        self.bits as u32
    }

    open spec fn reg_bits(&self) -> u8 {
        32
    }

    fn update(&mut self, offset: u8, width: u8, v: u32) {
        let m = mask_of(width);
        let new = (self.bits as u32 & !(m << offset)) | ((v & m) << offset);
        self.bits = new;
    }
}

impl W {
    /// Bits 0:31 - value field.
    pub fn value(&mut self) -> (f: FieldWriter32<'_, W>)
        ensures
            f.offset == 0,
            f.width == 32,
            *f.w == *old(self),
            *final(f.w) == *final(self),
    {
        FieldWriter32 { w: self, offset: 0, width: 32 }
    }
}

} // verus!
