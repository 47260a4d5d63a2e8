//! The `status` register of the `pixel_plot` peripheral.
use vstd::prelude::*;
use crate::sid_player::pac::generic::{BitReader, FieldReader, RegWriter, mask_of, with_field};

verus! {

/// The register value read back.
pub struct R {
    pub bits: u32,
}

/// The register value being written.
pub struct W {
    pub bits: u32,
}

/// Marker for the `status` register.
#[allow(non_camel_case_types)]
pub struct STATUS_SPEC;

impl RegWriter for W {
    open spec fn value(&self) -> u32 {
        self.bits as u32
    }

    open spec fn reg_bits(&self) -> u8 {
        32
    }

    fn update(&mut self, offset: u8, width: u8, v: u32) {
        let m = mask_of(width);
        let new = (self.bits as u32 & !(m << offset)) | ((v & m) << offset);
        self.bits = new;
    }
}

impl R {
    /// Bits 0:15 - fifo_level field.
    pub fn fifo_level(&self) -> (f: FieldReader<u16>)
        ensures
            f.bits == (self.bits & 0xffff) as u16,
    {
        FieldReader { bits: (self.bits & 0xffff) as u16 }
    }

    /// Bit 16 - busy field.
    pub fn busy(&self) -> (f: BitReader)
        ensures
            f.bit == (((self.bits >> 16) & 1) != 0),
    {
        BitReader { bit: ((self.bits >> 16) & 1) != 0 }
    }
}

} // verus!
