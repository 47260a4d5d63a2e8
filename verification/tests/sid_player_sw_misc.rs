use tiliqua_fw::sid_player_sw::bootstrap::{init_stub, nmi_stub, vectors, INIT_STUB_ADDR, NMI_STUB_ADDR};
use tiliqua_fw::sid_player_sw::cvmod::{cutoff_base, pw_base, CvMod};
use tiliqua_fw::sid_player::sid_scan::trim_ascii;
use tiliqua_fw::sid_player_sw::player::{
    load_psid_to_mem, replay_anchor, replay_check, sentinel_frame, sid_reg, sid_reset_writes, sid_txn, ReplayWait,
    SidWrite, SidWriteLog, SID_WRITE_CAP,
};
use tiliqua_fw::sid_player_sw::psid::{effective_clock, Clock, PsidError};

#[test]
fn init_stub_encodes_subtune_and_jsr() {
    let s = init_stub(1, 0x1000);
    assert_eq!(s[0], 0xA9);
    assert_eq!(s[1], 1);
    assert_eq!(s[2], 0x20);
    assert_eq!([s[3], s[4]], [0x00, 0x10]);
    assert_eq!(s[5], 0x4C);
}

#[test]
fn nmi_stub_calls_play_then_rti() {
    let s = nmi_stub(0x1003);
    assert_eq!(s, [0x20, 0x03, 0x10, 0x40]);
}

#[test]
fn vectors_point_at_stubs() {
    let v = vectors();
    assert_eq!([v[2], v[3]], INIT_STUB_ADDR.to_le_bytes());
    assert_eq!([v[0], v[1]], NMI_STUB_ADDR.to_le_bytes());
}

#[test]
fn bootstrap_init_stub_spins_on_its_own_jmp() {
    let s = init_stub(7, 0xBEEF);
    assert_eq!(s, [0xA9, 7, 0x20, 0xEF, 0xBE, 0x4C, 0x05, 0xFF]);
    let v = vectors();
    assert_eq!([v[4], v[5]], NMI_STUB_ADDR.to_le_bytes());
}

#[test]
fn base_extractors() {
    let mut s = [0u8; 32];
    s[0x15] = 0b101;
    s[0x16] = 0xFF;
    assert_eq!(cutoff_base(&s), (0xFF << 3) | 0b101);
    s[0x02] = 0x34;
    s[0x03] = 0x12;
    assert_eq!(pw_base(&s, 0), 0x234);
    s[0x09] = 0xFF;
    s[0x0A] = 0x0F;
    assert_eq!(pw_base(&s, 1), 0xFFF);
    s[0x10] = 0x00;
    s[0x11] = 0x00;
    assert_eq!(pw_base(&s, 2), 0x000);
}

#[test]
fn new_is_idle() {
    let cv = CvMod::new();
    let s = [0u8; 32];
    let out = {
        let mut cv = cv;
        cv.compute(&s, 0, [0, 0, 0], 0)
    };
    assert!(out.is_empty());
}

#[test]
fn cvmod_reset_and_compute_stay_silent() {
    let mut cv = CvMod::new();
    let mut s = [0u8; 32];
    s[0x16] = 0x80;
    assert!(cv.compute(&s, 0xFFFF_FFFF, [4000, -4000, 12000], 0b111).is_empty());
    cv.reset();
    assert!(cv.compute(&s, 0, [0, 0, 0], 0).is_empty());
    // Only the low three bits of the cutoff low byte count.
    s[0x15] = 0xFF;
    assert_eq!(cutoff_base(&s), (0x80 << 3) | 7);
}

#[test]
fn player_sid_window_and_txn_word() {
    assert_eq!(sid_reg(0xD400), Some(0));
    assert_eq!(sid_reg(0xD418), Some(0x18));
    assert_eq!(sid_reg(0xD41F), Some(0x1F));
    assert_eq!(sid_reg(0xD420), None);
    assert_eq!(sid_reg(0xD3FF), None);
    assert_eq!(sid_reg(0x0000), None);
    assert_eq!(sid_txn(0x18, 0x0F), (0x0F << 5) | 0x18);
    assert_eq!(sid_txn(0x3F, 0xFF), (0xFF << 5) | 0x1F);
}

#[test]
fn player_sentinel_frame_pushes_fffe() {
    let ((a1, v1), (a2, v2), sp) = sentinel_frame(0xFD);
    assert_eq!((a1, v1), (0x01FD, 0xFF));
    assert_eq!((a2, v2), (0x01FC, 0xFE));
    assert_eq!(sp, 0xFB);
    let ((b1, _), (b2, _), sp0) = sentinel_frame(0);
    assert_eq!((b1, b2, sp0), (0x0100, 0x01FF, 0xFE));
    let w = SidWrite { cycle: 6, reg: 0x18, val: 0x0F };
    assert_eq!(w, w.clone());
}

#[test]
fn overflow_drops_and_counts() {
    let mut log = SidWriteLog::new();
    for _ in 0..SID_WRITE_CAP + 3 {
        log.record(sid_reg(0xD400).unwrap(), 0x55);
    }
    assert_eq!(log.writes.len(), SID_WRITE_CAP);
    assert_eq!(log.dropped, 3);
}

#[test]
fn player_write_log_stamps_only_new_entries() {
    let mut log = SidWriteLog::new();
    log.record(0x04, 0x11);
    let stamped = log.stamp(0, 6);
    assert_eq!(stamped, 1);
    log.record(0x04, 0x10);
    log.record(0x18, 0x0F);
    let stamped = log.stamp(stamped, 14);
    assert_eq!(stamped, 3);
    let cycles: Vec<u32> = log.writes.iter().map(|w| w.cycle).collect();
    assert_eq!(cycles, vec![6, 14, 14]);
    assert_eq!(log.writes[2], SidWrite { cycle: 14, reg: 0x18, val: 0x0F });
    // Stamping past the end changes nothing.
    assert_eq!(log.stamp(10, 99), 3);
    assert_eq!(log.writes[0].cycle, 6);
    log.clear();
    assert!(log.writes.is_empty());
    assert_eq!(log.dropped, 0);
}

fn tune(load: u16, payload: &[u8]) -> Vec<u8> {
    let mut h = vec![0u8; 0x7C];
    h[0..4].copy_from_slice(b"PSID");
    h[0x04..0x06].copy_from_slice(&2u16.to_be_bytes());
    h[0x06..0x08].copy_from_slice(&0x7Cu16.to_be_bytes());
    h[0x08..0x0A].copy_from_slice(&load.to_be_bytes());
    h[0x0A..0x0C].copy_from_slice(&0x1000u16.to_be_bytes());
    h[0x0C..0x0E].copy_from_slice(&0x1003u16.to_be_bytes());
    h.extend_from_slice(payload);
    h
}

#[test]
fn player_load_places_payload_and_clears_cia_timer() {
    let t = tune(0x1000, &[1, 2, 3]);
    let mut hdr = tiliqua_fw::sid_player_sw::psid::PsidHeader::parse(&t).unwrap();
    hdr.init_addr = 0;
    let mut mem = Box::new([0xAAu8; 0x10000]);
    assert!(load_psid_to_mem(&t, t.len(), &mut hdr, &mut mem).is_ok());
    assert_eq!(&mem[0x1000..0x1003], &[1, 2, 3]);
    assert_eq!(mem[0x0FFF], 0xAA);
    assert_eq!(mem[0x1003], 0xAA);
    assert_eq!((mem[0xDC04], mem[0xDC05]), (0, 0));
    assert_eq!(hdr.init_addr, 0x1000);
    // Embedded load address.
    let t2 = tune(0, &[0x00, 0x20, 9, 8]);
    assert!(load_psid_to_mem(&t2, t2.len(), &mut hdr, &mut mem).is_ok());
    assert_eq!(&mem[0x2000..0x2002], &[9, 8]);
}

#[test]
fn player_load_refuses_corrupt_files_untouched() {
    let mut hdr = tiliqua_fw::sid_player_sw::psid::PsidHeader::parse(&tune(0x1000, &[])).unwrap();
    let before = hdr;
    let mut mem = Box::new([0x55u8; 0x10000]);
    let mut bad = tune(0x1000, &[1]);
    bad[0] = b'X';
    assert_eq!(load_psid_to_mem(&bad, bad.len(), &mut hdr, &mut mem), Err(PsidError::BadMagic));
    let huge = tune(0xFFFF, &[1, 2]);
    assert_eq!(load_psid_to_mem(&huge, huge.len(), &mut hdr, &mut mem), Err(PsidError::BadOffsets));
    let short = tune(0x1000, &[]);
    assert_eq!(load_psid_to_mem(&short, 0x77, &mut hdr, &mut mem), Err(PsidError::TooShort));
    assert_eq!(hdr, before);
    assert!(mem.iter().all(|&b| b == 0x55));
}

#[test]
fn player_reset_sequence_and_clock_choice() {
    let w = sid_reset_writes();
    assert_eq!(w.len(), 28);
    assert_eq!(&w[..3], &[(4, 8), (11, 8), (18, 8)]);
    assert_eq!(w[3], (0, 0));
    assert_eq!(w[27], (0x18, 0));
    let mut t = tune(0x1000, &[]);
    t[0x76] = 0;
    t[0x77] = 0x08;
    let hdr = tiliqua_fw::sid_player_sw::psid::PsidHeader::parse(&t).unwrap();
    assert_eq!(effective_clock(0, &hdr), Clock::Ntsc);
    assert_eq!(effective_clock(1, &hdr), Clock::Pal);
    assert_eq!(effective_clock(2, &hdr), Clock::Ntsc);
}

#[test]
fn player_replay_pacing() {
    assert_eq!(replay_anchor(1000, 900, 1000), (1000, 500));
    assert_eq!(replay_anchor(1000, 400, 1000), (400, 0));
    // Counter reloaded (wrapped below the anchor): the lead is huge.
    assert_eq!(replay_anchor(10, 20, 1000), (20, 0));
    assert_eq!(replay_check(1000, 500, 2, 1001), ReplayWait::Bail);
    assert_eq!(replay_check(1000, 500, 2, 300), ReplayWait::Issue);
    assert_eq!(replay_check(1000, 500, 2, 381), ReplayWait::Wait);
    assert_eq!(replay_check(1000, 500, 2, 380), ReplayWait::Issue);
}

#[test]
fn player_trim_ascii_fields() {
    assert_eq!(trim_ascii(b"Commando\0\0\0"), "Commando");
    assert_eq!(trim_ascii(b"NoNul"), "NoNul");
    assert_eq!(trim_ascii(b"\xFFbad\0"), "?");
    assert_eq!(trim_ascii(b""), "");
}
