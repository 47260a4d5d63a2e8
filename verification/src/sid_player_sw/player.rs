//! The pure parts of running a PSID tune on the emulated 6502: which bus
//! writes are SID register writes, the sentinel return frame a subroutine
//! call pushes, and the SID transaction word.
use vstd::prelude::*;
use crate::sid_player_sw::psid::{PsidHeader, PsidError, parse_spec, parse_in_bounds, resolve_spec};
use crate::sid_player::psid::{has_psid_magic, be16};
use crate::outside::{
    sid_write_items, sid_writes_new, sid_writes_push, sid_writes_len, sid_writes_clear, sid_writes_get, sid_writes_set,
};

verus! {

/// Most SID writes buffered per PLAY frame.
pub const SID_WRITE_CAP: usize = 256;

/// One SID register write, stamped with its 6502 cycle within the frame.
#[derive(Clone, Copy, PartialEq, Eq, Debug, Structural)]
pub struct SidWrite {
    pub cycle: u32,
    pub reg: u8,
    pub val: u8,
}

/// The SID register a bus write to `a` reaches, if `a` lies in the SID
/// window `0xD400..=0xD41F`.
pub open spec fn sid_reg_spec(a: u16) -> Option<u8> {
    if 0xD400 <= a <= 0xD41F {
        Some((a - 0xD400) as u8)
    } else {
        None
    }
}

/// The SID register a bus write to `a` reaches, if any.
pub fn sid_reg(a: u16) -> (r: Option<u8>)
    ensures
        r == sid_reg_spec(a),
{
    if a & 0xFFE0 == 0xD400 {
        assert(a & 0xFFE0 == 0xD400 ==> 0xD400 <= a <= 0xD41F && (a & 0x1F) == a - 0xD400) by (bit_vector);
        Some((a & 0x1F) as u8)
    } else {
        assert(!(a & 0xFFE0 == 0xD400) ==> !(0xD400 <= a <= 0xD41F)) by (bit_vector);
        None
    }
}

/// The sentinel a called subroutine returns to: RTS adds one to the pushed
/// address, landing on 0xFFFF.
pub const SENTINEL: u16 = 0xFFFF;

/// The two stack writes that push the sentinel return address (high byte
/// first, at `0x0100 + sp`, then low byte at `0x0100 + sp - 1`) and the
/// stack pointer after the push.
pub fn sentinel_frame(sp: u8) -> (r: ((u16, u8), (u16, u8), u8))
    ensures
        r.0 == ((0x0100 + sp) as u16, 0xFFu8),
        r.1 == ((0x0100 + (if sp >= 1 { sp - 1 } else { 255 })) as u16, 0xFEu8),
        r.2 == (if sp >= 2 { sp - 2 } else { sp + 254 }) as u8,
{
    let ret = SENTINEL.wrapping_sub(1);
    let hi = (ret >> 8u16) as u8;
    let lo = (ret & 0xFF) as u8;
    assert(hi == 0xFF && lo == 0xFE) by (bit_vector)
        requires
            ret == 0xFFFEu16,
            hi == (ret >> 8u16) as u8,
            lo == (ret & 0xFF) as u8,
    ;
    ((0x0100 + sp as u16, hi), (0x0100 + sp.wrapping_sub(1) as u16, lo), sp.wrapping_sub(2))
}

/// The SIDPeripheral transaction word: the value above the 5-bit register.
pub fn sid_txn(reg: u8, val: u8) -> (t: u16)
    ensures
        t == val * 32 + reg % 32,
{
    let t = ((val as u16) << 5u16) | (reg as u16 & 0x1F);
    assert(t == val * 32 + reg % 32) by (bit_vector)
        requires
            t == ((val as u16) << 5u16) | (reg as u16 & 0x1F),
    ;
    t
}

/// The SID writes of the routine running now, in order, and how many were
/// lost because the buffer was full (counted since the log was made).
pub struct SidWriteLog {
    pub writes: heapless::Vec<SidWrite, 256>,
    pub dropped: u32,
}

impl SidWriteLog {
    /// The buffered writes.
    pub open spec fn items(&self) -> Seq<SidWrite> {
        sid_write_items(self.writes)
    }

    /// No writes buffered, none dropped.
    pub fn new() -> (l: Self)
        ensures
            l.items() == Seq::<SidWrite>::empty(),
            l.dropped == 0,
    {
        SidWriteLog { writes: sid_writes_new(), dropped: 0 }
    }

    /// Whether the buffer holds as many writes as it can.
    pub fn is_full(&self) -> (b: bool)
        ensures
            b == (self.items().len() >= SID_WRITE_CAP),
    {
        sid_writes_len(&self.writes) >= SID_WRITE_CAP
    }

    /// Records a write of `val` to SID register `reg`, not yet stamped
    /// (cycle 0); when the buffer is full the write is lost and counted.
    pub fn record(&mut self, reg: u8, val: u8)
        requires
            old(self).items().len() >= SID_WRITE_CAP ==> old(self).dropped < u32::MAX,
        ensures
            old(self).items().len() < SID_WRITE_CAP ==> final(self).items() == old(self).items().push(
                SidWrite { cycle: 0, reg, val },
            ) && final(self).dropped == old(self).dropped,
            old(self).items().len() >= SID_WRITE_CAP ==> final(self).items() == old(self).items()
                && final(self).dropped == old(self).dropped + 1,
    {
        if sid_writes_push(&mut self.writes, SidWrite { cycle: 0, reg, val }).is_err() {
            self.dropped = self.dropped + 1;
        }
    }

    /// Forgets the buffered writes; the drop count stays.
    pub fn clear(&mut self)
        ensures
            final(self).items() == Seq::<SidWrite>::empty(),
            final(self).dropped == old(self).dropped,
    {
        sid_writes_clear(&mut self.writes);
    }

    /// Stamps every write from index `from` on with cycle `now` and returns
    /// the number of writes, from which the next stamp starts.
    pub fn stamp(&mut self, from: usize, now: u32) -> (n: usize)
        ensures
            n == old(self).items().len(),
            final(self).dropped == old(self).dropped,
            final(self).items() == Seq::new(
                old(self).items().len(),
                |i: int| if i >= from { SidWrite { cycle: now, ..old(self).items()[i] } } else { old(self).items()[i] },
            ),
    {
        let n = sid_writes_len(&self.writes);
        let mut i: usize = from;
        let ghost w0 = self.items();
        if i > n {
            i = n;
            assert(w0 =~= Seq::new(
                w0.len(),
                |k: int| if k >= from { SidWrite { cycle: now, ..w0[k] } } else { w0[k] },
            ));
        }
        while i < n
            invariant
                n == w0.len(),
                i <= n,
                self.dropped == old(self).dropped,
                w0 == old(self).items(),
                from <= n ==> from <= i,
                from > n ==> i == n,
                self.items().len() == n,
                forall|k: int| 0 <= k < n ==> #[trigger] self.items()[k] == (if from <= k < i {
                    SidWrite { cycle: now, ..w0[k] }
                } else {
                    w0[k]
                }),
            decreases n - i,
        {
            let w = sid_writes_get(&self.writes, i);
            assert(w == w0[i as int]);
            sid_writes_set(&mut self.writes, i, SidWrite { cycle: now, ..w });
            i = i + 1;
        }
        assert(self.items() =~= Seq::new(
            w0.len(),
            |k: int| if k >= from { SidWrite { cycle: now, ..w0[k] } } else { w0[k] },
        ));
        n
    }
}

/// The header and placement a tune buffer yields, or why it cannot be
/// loaded: a header too short for its version, a header error, or offsets
/// that do not fit the buffer or the 64 KiB address space.
pub open spec fn tune_load(tune: Seq<u8>, len: int) -> Result<(PsidHeader, int, Seq<u8>), PsidError> {
    let b = tune.take(len);
    if !parse_in_bounds(b) {
        Err(PsidError::TooShort)
    } else {
        match parse_spec(b) {
            Err(e) => Err(e),
            Ok(h) => match resolve_spec(h, tune, len, 0x10000) {
                Err(e) => Err(e),
                Ok((a, p)) => Ok((h, a, p)),
            },
        }
    }
}

/// The 6502 memory after loading `payload` at `load` and clearing CIA #1
/// timer A (0xDC04, 0xDC05), which INIT may then program.
pub open spec fn loaded_image(mem: Seq<u8>, load: int, payload: Seq<u8>) -> Seq<u8> {
    (mem.take(load) + payload + mem.skip(load + payload.len())).update(0xDC04, 0u8).update(0xDC05, 0u8)
}

/// Loads a tune's payload into the 6502 memory image and clears CIA timer
/// A. An unsupported or corrupt file is refused with its error and leaves
/// `hdr` and `mem` untouched.
pub fn load_psid_to_mem(tune_buf: &[u8], len: usize, hdr: &mut PsidHeader, mem: &mut [u8; 0x10000]) -> (r: Result<(), PsidError>)
    requires
        len <= tune_buf@.len(),
    ensures
        match tune_load(tune_buf@, len as int) {
            Ok((h, a, p)) => r is Ok && *final(hdr) == h && final(mem)@ == loaded_image(old(mem)@, a, p),
            Err(e) => (r matches Err(re) && re == e) && *final(hdr) == *old(hdr) && final(mem)@ == old(mem)@,
        },
{
    let b = &tune_buf[0..len];
    proof {
        assert(b@ == tune_buf@.take(len as int));
    }
    if b.len() >= 0x76 && b[0] == 0x50 && b[1] == 0x53 && b[2] == 0x49 && b[3] == 0x44 && b[4] == 0 && b[5] == 2
        && b.len() < 0x78 {
        return Err(PsidError::TooShort);
    }
    proof {
        if b@.len() >= 0x76 && has_psid_magic(b@) && be16(b@, 4) == 2 {
            assert(b@[4] * 256 + b@[5] == 2);
            assert(b@[4] == 0 && b@[5] == 2);
        }
    }
    let h = PsidHeader::parse(b)?;
    let (load_addr, payload) = h.resolve_payload(tune_buf, len, 0x10000)?;
    let ghost m0 = mem@;
    let mut i: usize = 0;
    while i < payload.len()
        invariant
            load_addr + payload@.len() <= 0x10000,
            i <= payload@.len(),
            mem@.len() == 0x10000,
            forall|k: int| 0 <= k < 0x10000 ==> mem@[k] == (if load_addr <= k < load_addr + i {
                payload@[k - load_addr]
            } else {
                m0[k]
            }),
        decreases payload@.len() - i,
    {
        mem[load_addr + i] = payload[i];
        i = i + 1;
    }
    assert(mem@ =~= m0.take(load_addr as int) + payload@ + m0.skip(load_addr + payload@.len()));
    mem[0xDC04] = 0;
    mem[0xDC05] = 0;
    *hdr = h;
    Ok(())
}

/// The writes that put the SID in its power-on state: TEST on each voice's
/// control register, then every register from 0x00 to 0x18 cleared.
pub open spec fn reset_sequence() -> Seq<(u8, u8)> {
    seq![(4u8, 8u8), (11u8, 8u8), (18u8, 8u8)] + Seq::new(0x19, |r: int| (r as u8, 0u8))
}

/// The SID reset sequence, in order.
pub fn sid_reset_writes() -> (w: Vec<(u8, u8)>)
    ensures
        w@ == reset_sequence(),
{
    let mut w: Vec<(u8, u8)> = Vec::new();
    let mut v: u8 = 0;
    while v < 3
        invariant
            v <= 3,
            w@ == Seq::new(v as nat, |k: int| ((4 + k * 7) as u8, 8u8)),
        decreases 3 - v,
    {
        w.push((4 + v * 7, 0x08));
        v = v + 1;
        assert(w@ =~= Seq::new(v as nat, |k: int| ((4 + k * 7) as u8, 8u8)));
    }
    let mut reg: u8 = 0;
    while reg <= 0x18
        invariant
            reg <= 0x19,
            w@ == seq![(4u8, 8u8), (11u8, 8u8), (18u8, 8u8)] + Seq::new(reg as nat, |r: int| (r as u8, 0u8)),
        decreases 0x19 - reg,
    {
        w.push((reg, 0));
        reg = reg + 1;
        assert(w@ =~= seq![(4u8, 8u8), (11u8, 8u8), (18u8, 8u8)] + Seq::new(reg as nat, |r: int| (r as u8, 0u8)));
    }
    w
}

/// Sync ticks per emulated 6502 cycle.
pub const TICKS_PER_CYCLE: u64 = 60;

/// The anchor a PLAY frame's writes are replayed from: half a play period
/// after the timer tick, or, when emulation already ran past that point,
/// the moment emulation ended. Returns the anchor counter value and the
/// offset of the first write from it.
pub fn replay_anchor(c_start: u32, c_mid: u32, period: u32) -> (r: (u32, u32))
    ensures
        (c_start as int - c_mid as int) % 0x1_0000_0000 < period / 2 ==> r == (c_start, period / 2),
        (c_start as int - c_mid as int) % 0x1_0000_0000 >= period / 2 ==> r == (c_mid, 0u32),
{
    let offset = period / 2;
    let lead = c_start.wrapping_sub(c_mid);
    if lead < offset {
        (c_start, offset)
    } else {
        (c_mid, 0)
    }
}

/// One look at the down-counting play timer while replaying a write.
#[derive(Clone, Copy, PartialEq, Eq, Debug, Structural)]
pub enum ReplayWait {
    /// The write's moment has not come.
    Wait,
    /// Issue the write now.
    Issue,
    /// The counter reloaded past the period's end: issue this and every
    /// remaining write at once.
    Bail,
}

/// Whether the write stamped `cycle` is due when the timer reads `c`, for a
/// replay anchored at `t0` with the first write `base` ticks after it.
pub fn replay_check(t0: u32, base: u32, cycle: u32, c: u32) -> (r: ReplayWait)
    ensures
        c > t0 ==> r == ReplayWait::Bail,
        c <= t0 ==> r == (if t0 - c >= base + cycle * TICKS_PER_CYCLE { ReplayWait::Issue } else { ReplayWait::Wait }),
{
    if c > t0 {
        return ReplayWait::Bail;
    }
    let target = base as u64 + cycle as u64 * TICKS_PER_CYCLE;
    if (t0 - c) as u64 >= target {
        ReplayWait::Issue
    } else {
        ReplayWait::Wait
    }
}

} // verus!
