//! The `info` register of the `pmod0_periph` peripheral.
use vstd::prelude::*;
use crate::sid_player::pac::generic::{FieldReader, RegWriter, mask_of, with_field};

verus! {

/// The register value read back.
pub struct R {
    pub bits: u32,
}

/// The register value being written.
pub struct W {
    pub bits: u32,
}

/// Marker for the `info` register.
#[allow(non_camel_case_types)]
pub struct INFO_SPEC;

impl RegWriter for W {
    open spec fn value(&self) -> u32 {
        self.bits as u32
    }

    open spec fn reg_bits(&self) -> u8 {
        32
    }

    fn update(&mut self, offset: u8, width: u8, v: u32) {
        let m = mask_of(width);
        let new = (self.bits as u32 & !(m << offset)) | ((v & m) << offset);
        self.bits = new;
    }
}

impl R {
    /// Bits 0:7 - f_bits field.
    pub fn f_bits(&self) -> (f: FieldReader<u8>)
        ensures
            f.bits == (self.bits & 0xff) as u8,
    {
        FieldReader { bits: (self.bits & 0xff) as u8 }
    }

    /// Bits 8:23 - counts_per_mv field.
    pub fn counts_per_mv(&self) -> (f: FieldReader<u16>)
        ensures
            f.bits == ((self.bits >> 8) & 0xffff) as u16,
    {
        FieldReader { bits: ((self.bits >> 8) & 0xffff) as u16 }
    }
}

} // verus!
