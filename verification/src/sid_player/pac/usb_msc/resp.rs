//! The `resp` register of the `usb_msc` peripheral.
use vstd::prelude::*;
use crate::sid_player::pac::generic::{BitReader, RegWriter, lemma_field_fits, mask_of, with_field};

verus! {

/// The register value read back.
pub struct R {
    pub bits: u8,
}

/// The register value being written.
pub struct W {
    pub bits: u8,
}

/// Marker for the `resp` register.
#[allow(non_camel_case_types)]
pub struct RESP_SPEC;

impl RegWriter for W {
    open spec fn value(&self) -> u32 {
        self.bits as u32
    }

    open spec fn reg_bits(&self) -> u8 {
        8
    }

    fn update(&mut self, offset: u8, width: u8, v: u32) {
        let m = mask_of(width);
        let new = (self.bits as u32 & !(m << offset)) | ((v & m) << offset);
        proof {
            assert((1u32 << 8u8) == 256u32) by (bit_vector);
            lemma_field_fits(self.bits as u32, offset, width, v, 8);
        }
        self.bits = new as u8;
    }
}

impl R {
    /// Bit 0 - done field.
    pub fn done(&self) -> (f: BitReader)
        ensures
            f.bit == ((self.bits & 1) != 0),
    {
        BitReader { bit: (self.bits & 1) != 0 }
    }

    /// Bit 1 - error field.
    pub fn error(&self) -> (f: BitReader)
        ensures
            f.bit == (((self.bits >> 1) & 1) != 0),
    {
        BitReader { bit: ((self.bits >> 1) & 1) != 0 }
    }
}

} // verus!
