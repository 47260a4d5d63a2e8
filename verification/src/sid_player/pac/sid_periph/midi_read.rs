//! The `midi_read` register of the `sid_periph` peripheral.
use vstd::prelude::*;
use crate::sid_player::pac::generic::{FieldReader, RegWriter, mask_of, with_field};

verus! {

/// The register value read back.
pub struct R {
    pub bits: u32,
}

/// The register value being written.
pub struct W {
    pub bits: u32,
}

/// Marker for the `midi_read` register.
#[allow(non_camel_case_types)]
pub struct MIDI_READ_SPEC;

impl RegWriter for W {
    open spec fn value(&self) -> u32 {
        self.bits as u32
    }

    open spec fn reg_bits(&self) -> u8 {
        32
    }

    fn update(&mut self, offset: u8, width: u8, v: u32) {
        let m = mask_of(width);
        let new = (self.bits as u32 & !(m << offset)) | ((v & m) << offset);
        self.bits = new;
    }
}

impl R {
    /// Bits 0:23 - msg field.
    pub fn msg(&self) -> (f: FieldReader<u32>)
        ensures
            f.bits == self.bits & 0x00ff_ffff,
    {
        FieldReader { bits: self.bits & 0x00ff_ffff }
    }
}

} // verus!
