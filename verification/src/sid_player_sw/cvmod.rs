//! CV modulation of the SID register image (bases and state; the modulation
//! itself is not enabled yet and emits no writes).
use vstd::prelude::*;
use crate::outside::{mod_list_items, mod_list_new};

verus! {

pub const SID_REGS: usize = 0x20;
pub const MAX_WRITES: usize = 16;
pub const COUNTS_PER_VOLT: i32 = 4000;
pub const CUTOFF_CTS_PER_V: i32 = 410;
pub const PW_CTS_PER_V: i32 = 400;
pub const SLEW_K: u32 = 3;
pub const ZONE_WIDTH: i32 = 5000;
pub const ZONE_HYST: i32 = 480;

const FC_LO: usize = 0x15;
const FC_HI: usize = 0x16;
const UNKNOWN: i16 = -1;

/// The 11-bit filter cutoff the shadow holds: FC_LO bits 2:0 and FC_HI.
pub open spec fn cutoff_of(shadow: Seq<u8>) -> i32 {
    ((shadow[0x15] & 0x07) as i32) | ((shadow[0x16] as i32) << 3i32)
}

/// The register pair holding voice `v`'s pulse width.
pub open spec fn pw_regs(v: int) -> (int, int) {
    if v == 0 {
        (0x02, 0x03)
    } else if v == 1 {
        (0x09, 0x0A)
    } else {
        (0x10, 0x11)
    }
}

/// The 12-bit pulse width of voice `v`: the low register and bits 3:0 of the high one.
pub open spec fn pw_of(shadow: Seq<u8>, v: int) -> i32 {
    let (lo, hi) = pw_regs(v);
    (shadow[lo] as i32) | (((shadow[hi] & 0x0F) as i32) << 8i32)
}

/// The filter cutoff the shadow register image holds.
pub fn cutoff_base(shadow: &[u8; 32]) -> (c: i32)
    ensures
        c == cutoff_of(shadow@),
{
    ((shadow[FC_LO] & 0x07) as i32) | ((shadow[FC_HI] as i32) << 3i32)
}

/// The pulse width of `voice` (0..=2) in the shadow register image.
pub fn pw_base(shadow: &[u8; 32], voice: usize) -> (p: i32)
    requires
        voice < 3,
    ensures
        p == pw_of(shadow@, voice as int),
{
    let (lo, hi): (usize, usize) = if voice == 0 {
        (0x02, 0x03)
    } else if voice == 1 {
        (0x09, 0x0A)
    } else {
        (0x10, 0x11)
    };
    (shadow[lo] as i32) | (((shadow[hi] & 0x0F) as i32) << 8i32)
}

/// Modulation state: per-voice slew, jack history, the last filter zone and
/// the last value emitted per register (-1 = none yet).
pub struct CvMod {
    slew: [i32; 3],
    prev_patched: [bool; 3],
    prev_zone: u8,
    last_emit: [i16; 32],
}

impl CvMod {
    /// Whether the state is the idle state: no slew, no jacks seen, zone 0,
    /// nothing emitted.
    pub closed spec fn is_idle(&self) -> bool {
        &&& self.slew@ == seq![0i32, 0i32, 0i32]
        &&& self.prev_patched@ == seq![false, false, false]
        &&& self.prev_zone == 0
        &&& self.last_emit@ == Seq::new(32, |i: int| UNKNOWN)
    }

    /// The idle state.
    pub fn new() -> (m: Self)
        ensures
            m.is_idle(),
    {
        let m = CvMod { slew: [0; 3], prev_patched: [false; 3], prev_zone: 0, last_emit: [UNKNOWN; 32] };
        assert(m.slew@ =~= seq![0i32, 0i32, 0i32]);
        assert(m.prev_patched@ =~= seq![false, false, false]);
        assert(m.last_emit@ =~= Seq::new(32, |i: int| UNKNOWN));
        m
    }

    /// Back to the idle state.
    pub fn reset(&mut self)
        ensures
            final(self).is_idle(),
    {
        self.slew = [0; 3];
        self.prev_patched = [false; 3];
        self.prev_zone = 0;
        self.last_emit = [UNKNOWN; 32];
        assert(self.slew@ =~= seq![0i32, 0i32, 0i32]);
        assert(self.prev_patched@ =~= seq![false, false, false]);
        assert(self.last_emit@ =~= Seq::new(32, |i: int| UNKNOWN));
    }

    /// The register writes CV modulation asks for this tick: none, since
    /// modulation is not enabled yet.
    pub fn compute(&mut self, _shadow: &[u8; 32], _dirty: u32, _cv_raw: [i32; 3], _jacks: u8) -> (w: heapless::Vec<
        (u8, u8),
        16,
    >)
        ensures
            mod_list_items(w) == Seq::<(u8, u8)>::empty(),
    {
        mod_list_new()
    }
}

} // verus!
