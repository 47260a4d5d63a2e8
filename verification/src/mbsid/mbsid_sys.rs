//! The synth engine's interface, as seen off-target: every call succeeds and
//! does nothing, the register images read zero, and every patch is a Lead
//! patch named `HOST STUB PATCH`.
use vstd::prelude::*;

verus! {

/// Starts the engine.
pub fn init() {
}

/// Runs one engine tick; `true` when the register images changed.
pub fn tick() -> (changed: bool)
    ensures
        !changed,
{
    false
}

/// The left SID's register image.
pub fn regs_l() -> (r: [u8; 32])
    ensures
        r@ == Seq::new(32, |i: int| 0u8),
{
    let r = [0u8; 32];
    assert(r@ =~= Seq::new(32, |i: int| 0u8));
    r
}

/// The right SID's register image.
pub fn regs_r() -> (r: [u8; 32])
    ensures
        r@ == Seq::new(32, |i: int| 0u8),
{
    let r = [0u8; 32];
    assert(r@ =~= Seq::new(32, |i: int| 0u8));
    r
}

/// Loads a 512-byte patch into the edit buffer; `true` on success.
pub fn load_patch(_buf: &[u8; 512]) -> (ok: bool)
    ensures
        ok,
{
    true
}

/// Selects a program of the current bank.
pub fn program_change(_patch: u8) {
}

/// Starts a note.
pub fn note_on(_chn: u8, _note: u8, _vel: u8) {
}

/// Stops a note.
pub fn note_off(_chn: u8, _note: u8) {
}

/// Sets the 14-bit pitch bend of a channel.
pub fn pitch_bend(_chn: u8, _bend14: u16) {
}

/// Sends a controller change.
pub fn cc(_chn: u8, _cc: u8, _val: u8) {
}

/// Sends channel aftertouch.
pub fn aftertouch(_chn: u8, _val: u8) {
}

/// The number of patch banks; the last is the user bank.
pub fn bank_count() -> (n: u8)
    ensures
        n == 1,
{
    1
}

/// Loads patch `patch` of bank `bank`; `true` on success.
pub fn bank_load(_bank: u8, _patch: u8) -> (ok: bool)
    ensures
        ok,
{
    true
}

/// The name every stub patch reports, NUL-terminated.
pub open spec fn stub_name() -> Seq<u8> {
    seq![
        0x48u8, 0x4Fu8, 0x53u8, 0x54u8, 0x20u8, 0x53u8, 0x54u8, 0x55u8, 0x42u8, 0x20u8, 0x50u8, 0x41u8, 0x54u8,
        0x43u8, 0x48u8, 0x00u8,
    ]
}

/// Writes the patch name into the first sixteen bytes of `buf`.
pub fn bank_patch_name(_bank: u8, _patch: u8, buf: &mut [u8; 17])
    ensures
        final(buf)@ == stub_name() + old(buf)@.subrange(16, 17),
{
    let name: [u8; 16] = [
        0x48, 0x4F, 0x53, 0x54, 0x20, 0x53, 0x54, 0x55, 0x42, 0x20, 0x50, 0x41, 0x54, 0x43, 0x48, 0x00,
    ];
    let ghost b0 = buf@;
    let mut i: usize = 0;
    while i < 16
        invariant
            i <= 16,
            buf@.len() == 17,
            name@ == stub_name(),
            forall|k: int| 0 <= k < i ==> buf@[k] == name@[k],
            forall|k: int| i <= k < 17 ==> buf@[k] == b0[k],
        decreases 16 - i,
    {
        buf[i] = name[i];
        i = i + 1;
    }
    assert(buf@ =~= stub_name() + b0.subrange(16, 17));
}

/// The engine byte and voice flags of a patch: a Lead patch in Mono mode.
pub fn bank_patch_info(_bank: u8, _patch: u8) -> (info: Option<(u8, u8)>)
    ensures
        info == Some((0u8, 0u8)),
{
    Some((0, 0))
}

} // verus!
