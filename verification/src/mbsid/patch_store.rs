//! Flash-backed 128-slot user patch bank: one 4 KiB erase sector per slot.
//!
//! A slot holds an 8-byte header (magic `MBUP`, version, reserved byte,
//! little-endian payload checksum) followed by the 512-byte patch. The header
//! is programmed after the payload, so an interrupted save reads back as an
//! empty slot, never as a corrupt patch.
use vstd::prelude::*;
use crate::mbsid::nor_store::{NorStore, NorOp, nor_erase, nor_program, err_of};

verus! {

pub const USER_BANK_FLASH_BASE: u32 = 0xF0_0000;
pub const SLOT_SIZE: u32 = 4096;
pub const N_SLOTS: u8 = 128;

pub const VERSION: u8 = 1;
pub const HEADER_LEN: u32 = 8;

/// The sum of the bytes of `s`.
pub open spec fn byte_sum(s: Seq<u8>) -> int
    decreases s.len(),
{
    if s.len() == 0 {
        0
    } else {
        byte_sum(s.drop_last()) + s.last()
    }
}

/// The 16-bit wrapping sum of the bytes of `s`.
pub open spec fn checksum_of(s: Seq<u8>) -> u16 {
    (byte_sum(s) % 0x10000) as u16
}

/// The payload checksum a valid header carries, or `None` when the magic or
/// the version is wrong.
pub open spec fn header_checksum(h: Seq<u8>) -> Option<u16> {
    if h.len() >= 8 && h[0] == 0x4D && h[1] == 0x42 && h[2] == 0x55 && h[3] == 0x50 && h[4] == VERSION {
        Some((h[6] + h[7] * 256) as u16)
    } else {
        None
    }
}

/// The header written for `patch`.
pub open spec fn header_for(patch: Seq<u8>) -> Seq<u8> {
    let c = checksum_of(patch);
    seq![0x4Du8, 0x42u8, 0x55u8, 0x50u8, VERSION, 0u8, (c % 256) as u8, (c / 256) as u8]
}

/// Flash offset of a slot.
pub open spec fn slot_offset(base: u32, slot: u8) -> int {
    base + slot * SLOT_SIZE
}

/// The header checksum stored at `a`, if the header is valid.
pub open spec fn slot_header(m: Seq<u8>, a: int) -> Option<u16> {
    if 0 <= a && a + HEADER_LEN <= m.len() {
        header_checksum(m.subrange(a, a + HEADER_LEN))
    } else {
        None
    }
}

/// The 512-byte payload stored at `a`.
pub open spec fn slot_payload(m: Seq<u8>, a: int) -> Seq<u8> {
    m.subrange(a + HEADER_LEN, a + HEADER_LEN + 512)
}

/// A slot whose header is valid and whose payload matches its checksum.
pub open spec fn slot_holds_patch(m: Seq<u8>, a: int) -> bool {
    &&& 0 <= a
    &&& a + HEADER_LEN + 512 <= m.len()
    &&& slot_header(m, a) == Some(checksum_of(slot_payload(m, a)))
}

/// The flash after a complete save of `patch` into the slot at `a`: erase the
/// sector, program the payload, then program the header.
pub open spec fn saved_image(m: Seq<u8>, a: int, patch: Seq<u8>) -> Seq<u8> {
    nor_program(nor_program(nor_erase(m, a, a + SLOT_SIZE), a + HEADER_LEN, patch), a, header_for(patch))
}

/// The three calls a save of `patch` into the slot at `a` makes, in order:
/// erase the slot's sector, program the payload, then program the header
/// that commits the save.
pub open spec fn save_steps(a: int, patch: Seq<u8>) -> Seq<NorOp> {
    seq![
        NorOp::Erase(a as u32, (a + SLOT_SIZE) as u32),
        NorOp::Write((a + HEADER_LEN) as u32, patch),
        NorOp::Write(a as u32, header_for(patch)),
    ]
}

/// The operation log `after` is `before` followed by the save steps up to
/// and including the first that failed, each earlier step logged as having
/// succeeded; the save returns the last logged step's result (`r` is that
/// step's error), and `Ok` only when all three steps succeeded.
pub open spec fn save_logged<E>(
    before: Seq<(NorOp, Option<E>)>,
    after: Seq<(NorOp, Option<E>)>,
    a: int,
    patch: Seq<u8>,
    r: Result<(), E>,
) -> bool {
    let st = save_steps(a, patch);
    ||| r is Err && after == before.push((st[0], err_of(r)))
    ||| r is Err && after == before.push((st[0], None)).push((st[1], err_of(r)))
    ||| after == before.push((st[0], None)).push((st[1], None)).push((st[2], err_of(r)))
}

/// The flash after a save interrupted before the header was programmed.
pub open spec fn torn_image(m: Seq<u8>, a: int, patch: Seq<u8>) -> Seq<u8> {
    nor_program(nor_erase(m, a, a + SLOT_SIZE), a + HEADER_LEN, patch)
}

/// The 16-bit wrapping sum of the patch bytes.
pub fn payload_checksum(data: &[u8; 512]) -> (c: u16)
    ensures
        c == checksum_of(data@),
{
    let mut a: u16 = 0;
    let mut i: usize = 0;
    while i < 512
        invariant
            i <= 512,
            data@.len() == 512,
            a == checksum_of(data@.take(i as int)),
        decreases 512 - i,
    {
        assert(data@.take(i as int + 1).drop_last() =~= data@.take(i as int));
        a = a.wrapping_add(data[i] as u16);
        i = i + 1;
    }
    assert(data@.take(512) =~= data@);
    a
}

fn encode_header(patch: &[u8; 512]) -> (h: [u8; 8])
    ensures
        h@ == header_for(patch@),
{
    let c = payload_checksum(patch);
    let h = [0x4D, 0x42, 0x55, 0x50, VERSION, 0, (c % 256) as u8, (c / 256) as u8];
    assert(h@ =~= header_for(patch@));
    h
}

/// A bank of user patches stored in NOR flash from `base` on.
pub struct UserPatchStore<F> {
    flash: F,
    base: u32,
}

impl<F: NorStore> UserPatchStore<F> {
    /// The flash contents.
    pub closed spec fn contents(&self) -> Seq<u8> {
        self.flash.contents()
    }

    /// The offset of slot 0.
    pub closed spec fn base(&self) -> u32 {
        self.base
    }

    /// Whether the flash underneath is reliable.
    pub closed spec fn reliable(&self) -> bool {
        self.flash.reliable()
    }

    /// The erase and program calls made on the flash so far.
    pub closed spec fn ops(&self) -> Seq<(NorOp, Option<F::Error>)> {
        self.flash.ops()
    }

    /// The flash underneath.
    pub closed spec fn held(&self) -> F {
        self.flash
    }

    /// All 128 slots can be addressed without overflowing a 32-bit offset.
    pub open spec fn wf(&self) -> bool {
        self.base() + N_SLOTS * SLOT_SIZE <= u32::MAX
    }

    /// The first `len` bytes of `slot` can be addressed without overflowing
    /// a 32-bit offset.
    pub open spec fn slot_fits(&self, slot: u8, len: int) -> bool {
        slot_offset(self.base(), slot) + len <= u32::MAX
    }

    /// A store over `flash` whose slot 0 starts at `base`.
    pub fn new(flash: F, base: u32) -> (s: Self)
        ensures
            s.contents() == flash.contents(),
            s.reliable() == flash.reliable(),
            s.held() == flash,
            s.base() == base,
    {
        UserPatchStore { flash, base }
    }

    /// Takes the flash back out.
    pub fn into_inner(self) -> (f: F)
        ensures
            f == self.held(),
            f.contents() == self.contents(),
            f.reliable() == self.reliable(),
    {
        self.flash
    }

    /// The flash underneath, to reach the other windows it holds (the
    /// settings record); whatever is done through it shows in the store.
    pub fn flash_mut(&mut self) -> (f: &mut F)
        ensures
            *f == old(self).held(),
            final(self).held() == *final(f),
            (*f).contents() == old(self).contents(),
            (*f).reliable() == old(self).reliable(),
            final(self).contents() == (*final(f)).contents(),
            final(self).reliable() == (*final(f)).reliable(),
            final(self).base() == old(self).base(),
    {
        &mut self.flash
    }

    fn slot_addr(&self, slot: u8) -> (a: u32)
        requires
            self.slot_fits(slot, 0),
        ensures
            a == slot_offset(self.base(), slot),
    {
        self.base + (slot as u32) * SLOT_SIZE
    }

    /// Reads and validates the header of `slot`; returns the payload checksum
    /// it records.
    fn read_header(&mut self, slot: u8) -> (r: Option<u16>)
        requires
            slot < N_SLOTS ==> old(self).slot_fits(slot, 0),
        ensures
            final(self).contents() == old(self).contents(),
            final(self).ops() == old(self).ops(),
            final(self).base() == old(self).base(),
            r is Some ==> slot < N_SLOTS && r == slot_header(old(self).contents(), slot_offset(old(self).base(), slot)),
            (slot >= N_SLOTS || slot_header(old(self).contents(), slot_offset(old(self).base(), slot)) is None) ==> r is None,
            old(self).reliable() ==> final(self).reliable(),
            old(self).reliable() && slot < N_SLOTS ==> r == slot_header(old(self).contents(), slot_offset(old(self).base(), slot)),
    {
        let mut hdr = [0u8; 8];
        if slot >= N_SLOTS {
            return None;
        }
        let a = self.slot_addr(slot);
        if self.flash.read(a, &mut hdr).is_err() {
            return None;
        }
        proof {
            assert(hdr@ =~= self.contents().subrange(a as int, a + HEADER_LEN));
        }
        if hdr[0] != 0x4D || hdr[1] != 0x42 || hdr[2] != 0x55 || hdr[3] != 0x50 || hdr[4] != VERSION {
            return None;
        }
        Some(hdr[6] as u16 + (hdr[7] as u16) * 256)
    }

    /// Loads the patch in `slot` into `out`; `true` only when the slot holds a
    /// valid header and the payload matches its checksum.
    pub fn load(&mut self, slot: u8, out: &mut [u8; 512]) -> (r: bool)
        requires
            slot < N_SLOTS ==> old(self).slot_fits(slot, HEADER_LEN as int),
        ensures
            final(self).contents() == old(self).contents(),
            final(self).ops() == old(self).ops(),
            final(self).base() == old(self).base(),
            r ==> slot < N_SLOTS && slot_holds_patch(old(self).contents(), slot_offset(old(self).base(), slot))
                && final(out)@ == slot_payload(old(self).contents(), slot_offset(old(self).base(), slot)),
            !(slot < N_SLOTS && slot_holds_patch(old(self).contents(), slot_offset(old(self).base(), slot))) ==> !r,
            old(self).reliable() ==> final(self).reliable(),
            old(self).reliable() ==> (r <==> slot < N_SLOTS && slot_holds_patch(
                old(self).contents(),
                slot_offset(old(self).base(), slot),
            )),
    {
        let want = match self.read_header(slot) {
            Some(w) => w,
            None => {
                return false;
            },
        };
        let a = self.slot_addr(slot);
        if self.flash.read(a + HEADER_LEN, out).is_err() {
            return false;
        }
        let ghost m = self.contents();
        proof {
            assert(out@ =~= slot_payload(m, a as int));
        }
        payload_checksum(out) == want
    }

    /// Reads the first 16 payload bytes of `slot` (the patch name) into `out`;
    /// `true` only when the slot's header is valid.
    pub fn name(&mut self, slot: u8, out: &mut [u8; 16]) -> (r: bool)
        requires
            slot < N_SLOTS ==> old(self).slot_fits(slot, HEADER_LEN as int),
        ensures
            final(self).contents() == old(self).contents(),
            final(self).ops() == old(self).ops(),
            final(self).base() == old(self).base(),
            r ==> slot < N_SLOTS && slot_header(old(self).contents(), slot_offset(old(self).base(), slot)) is Some
                && final(out)@ == old(self).contents().subrange(
                slot_offset(old(self).base(), slot) + HEADER_LEN,
                slot_offset(old(self).base(), slot) + HEADER_LEN + 16,
            ),
            (slot >= N_SLOTS || slot_header(old(self).contents(), slot_offset(old(self).base(), slot)) is None) ==> !r,
            old(self).reliable() ==> final(self).reliable(),
            old(self).reliable() && slot < N_SLOTS && slot_header(old(self).contents(), slot_offset(old(self).base(), slot))
                is Some && slot_offset(old(self).base(), slot) + HEADER_LEN + 16 <= old(self).contents().len() ==> r,
    {
        if self.read_header(slot).is_none() {
            return false;
        }
        let a = self.slot_addr(slot);
        self.flash.read(a + HEADER_LEN, out).is_ok()
    }

    /// Erases the sector of `slot`, which then reads back as an empty slot.
    pub fn erase_slot(&mut self, slot: u8) -> (r: Result<(), F::Error>)
        requires
            slot < N_SLOTS,
            old(self).slot_fits(slot, SLOT_SIZE as int),
        ensures
            final(self).base() == old(self).base(),
            final(self).contents().len() == old(self).contents().len(),
            old(self).reliable() ==> final(self).reliable(),
            old(self).reliable() && slot_offset(old(self).base(), slot) + SLOT_SIZE <= old(self).contents().len() ==> r is Ok,
            final(self).ops() == old(self).ops().push(
                (
                    NorOp::Erase(
                        slot_offset(old(self).base(), slot) as u32,
                        (slot_offset(old(self).base(), slot) + SLOT_SIZE) as u32,
                    ),
                    err_of(r),
                ),
            ),
            r is Ok ==> final(self).contents() == nor_erase(
                old(self).contents(),
                slot_offset(old(self).base(), slot),
                slot_offset(old(self).base(), slot) + SLOT_SIZE,
            ),
    {
        let a = self.slot_addr(slot);
        self.flash.erase(a, a + SLOT_SIZE)
    }

    /// Saves `patch` into `slot`: erase the sector, program the payload, then
    /// program the header, which commits the save.
    pub fn save(&mut self, slot: u8, patch: &[u8; 512]) -> (r: Result<(), F::Error>)
        requires
            slot < N_SLOTS,
            old(self).slot_fits(slot, SLOT_SIZE as int),
        ensures
            final(self).base() == old(self).base(),
            final(self).contents().len() == old(self).contents().len(),
            old(self).reliable() ==> final(self).reliable(),
            old(self).reliable() && slot_offset(old(self).base(), slot) + SLOT_SIZE <= old(self).contents().len() ==> r is Ok,
            save_logged(old(self).ops(), final(self).ops(), slot_offset(old(self).base(), slot), patch@, r),
            r is Ok ==> final(self).contents() == saved_image(
                old(self).contents(),
                slot_offset(old(self).base(), slot),
                patch@,
            ),
    {
        let a = self.slot_addr(slot);
        let erased = self.flash.erase(a, a + SLOT_SIZE);
        if erased.is_err() {
            return erased;
        }
        let payload = self.flash.write(a + HEADER_LEN, patch);
        if payload.is_err() {
            return payload;
        }
        let hdr = encode_header(patch);
        self.flash.write(a, &hdr)
    }
}

proof fn lemma_and_ff(x: u8)
    ensures
        (0xFFu8 & x) == x,
{
    assert((0xFFu8 & x) == x) by (bit_vector);
}

/// A completed save leaves a slot that loads back as exactly the saved patch,
/// and touches no byte outside the slot's sector.
pub proof fn lemma_saved_slot_loads(m: Seq<u8>, a: int, patch: Seq<u8>)
    requires
        0 <= a,
        a + SLOT_SIZE <= m.len(),
        patch.len() == 512,
    ensures
        slot_holds_patch(saved_image(m, a, patch), a),
        slot_payload(saved_image(m, a, patch), a) == patch,
        forall|i: int| 0 <= i < m.len() && !(a <= i < a + SLOT_SIZE) ==> #[trigger] saved_image(m, a, patch)[i] == m[i],
{
    let s = saved_image(m, a, patch);
    let h = header_for(patch);
    assert forall|i: int| a + HEADER_LEN <= i < a + HEADER_LEN + 512 implies s[i] == patch[i - a - HEADER_LEN] by {
        lemma_and_ff(patch[i - a - HEADER_LEN]);
    }
    assert(slot_payload(s, a) =~= patch);
    assert forall|i: int| a <= i < a + HEADER_LEN implies s[i] == h[i - a] by {
        lemma_and_ff(h[i - a]);
    }
    assert(s.subrange(a, a + HEADER_LEN) =~= h);
    let c = checksum_of(patch);
    assert((c % 256) as u8 + ((c / 256) as u8) * 256 == c);
}

/// A save interrupted after the payload but before the header leaves a slot
/// whose header is invalid, so it reads back as empty.
pub proof fn lemma_torn_save_reads_empty(m: Seq<u8>, a: int, patch: Seq<u8>)
    requires
        0 <= a,
        a + SLOT_SIZE <= m.len(),
        patch.len() == 512,
    ensures
        slot_header(torn_image(m, a, patch), a) is None,
{
    let t = torn_image(m, a, patch);
    assert(t[a] == 0xFFu8);
    assert(t.subrange(a, a + HEADER_LEN)[0] == 0xFFu8);
}

} // verus!
