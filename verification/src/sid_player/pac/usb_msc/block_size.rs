//! The `block_size` register of the `usb_msc` peripheral.
use vstd::prelude::*;
use crate::sid_player::pac::generic::{FieldReader, RegWriter, lemma_field_fits, mask_of, with_field};

verus! {

/// The register value read back.
pub struct R {
    pub bits: u16,
}

/// The register value being written.
pub struct W {
    pub bits: u16,
}

/// Marker for the `block_size` register.
#[allow(non_camel_case_types)]
pub struct BLOCK_SIZE_SPEC;

impl RegWriter for W {
    open spec fn value(&self) -> u32 {
        self.bits as u32
    }

    open spec fn reg_bits(&self) -> u8 {
        16
    }

    fn update(&mut self, offset: u8, width: u8, v: u32) {
        let m = mask_of(width);
        let new = (self.bits as u32 & !(m << offset)) | ((v & m) << offset);
        proof {
            assert((1u32 << 16u8) == 65536u32) by (bit_vector);
            lemma_field_fits(self.bits as u32, offset, width, v, 16);
        }
        self.bits = new as u16;
    }
}

impl R {
    /// Bits 0:15 - value field.
    pub fn value(&self) -> (f: FieldReader<u16>)
        ensures
            f.bits == self.bits,
    {
        FieldReader { bits: self.bits }
    }
}

} // verus!
