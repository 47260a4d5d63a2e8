//! 6502 bootstrap code placed above the tune: a RESET stub that selects the
//! subtune and calls INIT, an NMI stub that calls PLAY, and the vectors.
use vstd::prelude::*;

verus! {

pub const INIT_STUB_ADDR: u16 = 0xFF00;
pub const NMI_STUB_ADDR: u16 = 0xFF20;

/// RESET stub: `LDA #subtune; JSR init; JMP *` (the jump loops on itself).
pub fn init_stub(subtune_0based: u8, init_addr: u16) -> (s: [u8; 8])
    ensures
        s@ == seq![
            0xA9u8, subtune_0based, 0x20u8, (init_addr % 256) as u8, (init_addr / 256) as u8, 0x4Cu8,
            ((INIT_STUB_ADDR % 256) + 5) as u8, (INIT_STUB_ADDR / 256) as u8,
        ],
{
    let il = (init_addr % 256) as u8;
    let ih = (init_addr / 256) as u8;
    let sl = (INIT_STUB_ADDR % 256) as u8;
    let sh = (INIT_STUB_ADDR / 256) as u8;
    let s = [0xA9, subtune_0based, 0x20, il, ih, 0x4C, sl.wrapping_add(5), sh];
    assert(s@ =~= seq![
        0xA9u8, subtune_0based, 0x20u8, (init_addr % 256) as u8, (init_addr / 256) as u8, 0x4Cu8,
        ((INIT_STUB_ADDR % 256) + 5) as u8, (INIT_STUB_ADDR / 256) as u8,
    ]);
    s
}

/// NMI stub: `JSR play; RTI`.
pub fn nmi_stub(play_addr: u16) -> (s: [u8; 4])
    ensures
        s@ == seq![0x20u8, (play_addr % 256) as u8, (play_addr / 256) as u8, 0x40u8],
{
    let s = [0x20, (play_addr % 256) as u8, (play_addr / 256) as u8, 0x40];
    assert(s@ =~= seq![0x20u8, (play_addr % 256) as u8, (play_addr / 256) as u8, 0x40u8]);
    s
}

/// The NMI, RESET and IRQ vectors (0xFFFA..0xFFFF): NMI and IRQ point at the
/// NMI stub, RESET at the init stub, each little-endian.
pub fn vectors() -> (v: [u8; 6])
    ensures
        v@ == seq![
            (NMI_STUB_ADDR % 256) as u8, (NMI_STUB_ADDR / 256) as u8, (INIT_STUB_ADDR % 256) as u8,
            (INIT_STUB_ADDR / 256) as u8, (NMI_STUB_ADDR % 256) as u8, (NMI_STUB_ADDR / 256) as u8,
        ],
{
    let nl = (NMI_STUB_ADDR % 256) as u8;
    let nh = (NMI_STUB_ADDR / 256) as u8;
    let rl = (INIT_STUB_ADDR % 256) as u8;
    let rh = (INIT_STUB_ADDR / 256) as u8;
    let v = [nl, nh, rl, rh, nl, nh];
    assert(v@ =~= seq![
        (NMI_STUB_ADDR % 256) as u8, (NMI_STUB_ADDR / 256) as u8, (INIT_STUB_ADDR % 256) as u8,
        (INIT_STUB_ADDR / 256) as u8, (NMI_STUB_ADDR % 256) as u8, (NMI_STUB_ADDR / 256) as u8,
    ]);
    v
}

/// The RESET stub's final jump lands on itself (`JMP` at offset 5 targets
/// the stub address plus 5), so the CPU idles after INIT returns.
pub proof fn lemma_init_stub_idles(subtune_0based: u8, init_addr: u16)
    ensures
        ({
            let target = ((INIT_STUB_ADDR % 256) + 5) + (INIT_STUB_ADDR / 256) * 256;
            target == INIT_STUB_ADDR + 5
        }),
{
}

} // verus!
