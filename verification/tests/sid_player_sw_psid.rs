use tiliqua_fw::sid_player_sw::psid::header_readable;
use tiliqua_fw::sid_player_sw::psid::{play_period_cycles, Clock, PsidError, PsidHeader, SidModel};

fn be16(v: u16) -> [u8; 2] {
    v.to_be_bytes()
}

fn make_header() -> [u8; 0x7C] {
    let mut h = [0u8; 0x7C];
    h[0..4].copy_from_slice(b"PSID");
    h[0x04..0x06].copy_from_slice(&be16(2));
    h[0x06..0x08].copy_from_slice(&be16(0x7C));
    h[0x08..0x0A].copy_from_slice(&be16(0x1000));
    h[0x0A..0x0C].copy_from_slice(&be16(0x1000));
    h[0x0C..0x0E].copy_from_slice(&be16(0x1003));
    h[0x0E..0x10].copy_from_slice(&be16(3));
    h[0x10..0x12].copy_from_slice(&be16(1));
    h[0x12..0x16].copy_from_slice(&2u32.to_be_bytes());
    h
}

#[test]
fn psid_parses_v2_header() {
    let h = PsidHeader::parse(&make_header()).unwrap();
    assert_eq!(h.version, 2);
    assert_eq!(h.init_addr, 0x1000);
    assert_eq!(h.play_addr, 0x1003);
    assert_eq!(h.songs, 3);
    assert_eq!(h.start_song, 1);
}

#[test]
fn psid_rejects_bad_magic() {
    let mut h = make_header();
    h[0] = b'X';
    assert_eq!(PsidHeader::parse(&h), Err(PsidError::BadMagic));
}

#[test]
fn parses_flags_field() {
    let mut h = make_header();
    h[0x76..0x78].copy_from_slice(&be16(0x08));
    assert_eq!(PsidHeader::parse(&h).unwrap().flags, 0x08);
}

#[test]
fn clock_from_flags() {
    let mut h = make_header();
    h[0x76..0x78].copy_from_slice(&be16(0x04));
    assert_eq!(PsidHeader::parse(&h).unwrap().clock(), Clock::Pal);
    h[0x76..0x78].copy_from_slice(&be16(0x08));
    assert_eq!(PsidHeader::parse(&h).unwrap().clock(), Clock::Ntsc);
}

#[test]
fn model_from_flags() {
    let mut h = make_header();
    h[0x76..0x78].copy_from_slice(&be16(0x10));
    assert_eq!(PsidHeader::parse(&h).unwrap().model(), SidModel::Mos6581);
    h[0x76..0x78].copy_from_slice(&be16(0x20));
    assert_eq!(PsidHeader::parse(&h).unwrap().model(), SidModel::Mos8580);
    h[0x76..0x78].copy_from_slice(&be16(0x30));
    assert_eq!(PsidHeader::parse(&h).unwrap().model(), SidModel::Both);
    h[0x76..0x78].copy_from_slice(&be16(0x00));
    assert_eq!(PsidHeader::parse(&h).unwrap().model(), SidModel::Unknown);
}

#[test]
fn clock_defaults_to_pal_when_unknown_or_both() {
    let mut h = make_header();
    h[0x76..0x78].copy_from_slice(&be16(0x00));
    assert_eq!(PsidHeader::parse(&h).unwrap().clock(), Clock::Pal);
    h[0x76..0x78].copy_from_slice(&be16(0x0C));
    assert_eq!(PsidHeader::parse(&h).unwrap().clock(), Clock::Pal);
}

#[test]
fn is_cia_reads_speed_bit() {
    let h = PsidHeader::parse(&make_header()).unwrap();
    assert!(!h.is_cia(1));
    assert!(h.is_cia(2));
}

fn rate(period: u32) -> u32 {
    60_000_000 / period
}

#[test]
fn vbi_pal_rate_is_50hz() {
    let p = play_period_cycles(60_000_000, Clock::Pal, false, 0);
    assert!((49..=51).contains(&rate(p)), "got {} Hz", rate(p));
}

#[test]
fn vbi_ntsc_rate_is_60hz() {
    let p = play_period_cycles(60_000_000, Clock::Ntsc, false, 0);
    assert!((59..=61).contains(&rate(p)), "got {} Hz", rate(p));
}

#[test]
fn cia_unprogrammed_timer_defaults_to_60hz() {
    let p = play_period_cycles(60_000_000, Clock::Pal, true, 0);
    assert!((59..=61).contains(&rate(p)), "got {} Hz", rate(p));
}

#[test]
fn cia_multispeed_timer_gives_150hz() {
    let p = play_period_cycles(60_000_000, Clock::Pal, true, 6567);
    assert!((148..=152).contains(&rate(p)), "got {} Hz", rate(p));
}

#[test]
fn psid_load_addr_from_payload_when_zero() {
    let mut hb = make_header();
    hb[0x08..0x0A].copy_from_slice(&be16(0));
    let h = PsidHeader::parse(&hb).unwrap();
    assert_eq!(h.effective_load_addr(&[0x00, 0x20]), 0x2000);
}

#[test]
fn resolve_payload_rejects_data_offset_beyond_len() {
    let h = PsidHeader::parse(&make_header()).unwrap();
    let tune = make_header();
    let mem_len = 0x10000;
    assert_eq!(h.resolve_payload(&tune, 0x7B, mem_len), Err(PsidError::BadOffsets));
}

#[test]
fn resolve_payload_rejects_tiny_payload_when_load_addr_zero() {
    let mut hb = make_header();
    hb[0x08..0x0A].copy_from_slice(&be16(0));
    let h = PsidHeader::parse(&hb).unwrap();
    let mut tune = [0u8; 0x7D];
    tune[..0x7C].copy_from_slice(&hb[..0x7C]);
    tune[0x7C] = 0xAA;
    let mem_len = 0x10000;
    assert_eq!(h.resolve_payload(&tune, 0x7D, mem_len), Err(PsidError::BadOffsets));
}

#[test]
fn resolve_payload_rejects_payload_exceeding_mem() {
    let mut hb = make_header();
    hb[0x08..0x0A].copy_from_slice(&be16(0xFF00));
    let h = PsidHeader::parse(&hb).unwrap();
    let tune_len = 0x7C + 0x200;
    let mut tune = vec![0u8; tune_len];
    tune[..0x7C].copy_from_slice(&hb[..0x7C]);
    let mem_len = 0x10000;
    assert_eq!(h.resolve_payload(&tune, tune_len, mem_len), Err(PsidError::BadOffsets));
}

#[test]
fn resolve_payload_ok_explicit_load_addr() {
    let h = PsidHeader::parse(&make_header()).unwrap();
    let tune_len = 0x7C + 4;
    let mut tune = [0u8; 0x80];
    tune[..0x7C].copy_from_slice(&make_header());
    tune[0x7C] = 0x01;
    tune[0x7D] = 0x02;
    tune[0x7E] = 0x03;
    tune[0x7F] = 0x04;
    let mem_len = 0x10000;
    let result = h.resolve_payload(&tune, tune_len, mem_len);
    assert!(result.is_ok(), "expected Ok, got {:?}", result);
    let (load_addr, payload) = result.unwrap();
    assert_eq!(load_addr, 0x1000);
    assert_eq!(payload, &[0x01, 0x02, 0x03, 0x04]);
}

#[test]
fn resolve_payload_ok_embedded_load_addr() {
    let mut hb = make_header();
    hb[0x08..0x0A].copy_from_slice(&be16(0));
    let h = PsidHeader::parse(&hb).unwrap();
    let tune_len = 0x7C + 4;
    let mut tune = [0u8; 0x80];
    tune[..0x7C].copy_from_slice(&hb[..0x7C]);
    tune[0x7C] = 0x00;
    tune[0x7D] = 0x20;
    tune[0x7E] = 0xAA;
    tune[0x7F] = 0xBB;
    let mem_len = 0x10000;
    let result = h.resolve_payload(&tune, tune_len, mem_len);
    assert!(result.is_ok(), "expected Ok, got {:?}", result);
    let (load_addr, payload) = result.unwrap();
    assert_eq!(load_addr, 0x2000);
    assert_eq!(payload, &[0xAA, 0xBB]);
}

#[test]
fn sw_psid_exact_periods() {
    // 60 MHz * 19656 / 985248, rounded down
    assert_eq!(play_period_cycles(60_000_000, Clock::Pal, false, 0), 1_197_018);
    // 60 MHz * (0x4025 + 1) / 985248
    assert_eq!(play_period_cycles(60_000_000, Clock::Pal, true, 0), (60_000_000u64 * 0x4026 / 985_248) as u32);
    assert_eq!(play_period_cycles(60_000_000, Clock::Ntsc, true, 99), (60_000_000u64 * 100 / 1_022_727) as u32);
}

#[test]
fn sw_psid_v1_has_no_flags_and_model_labels() {
    let mut v1 = make_header();
    v1[0x04..0x06].copy_from_slice(&be16(1));
    v1[0x76..0x78].copy_from_slice(&be16(0x28));
    let h = PsidHeader::parse(&v1).unwrap();
    assert_eq!(h.flags, 0);
    assert_eq!(h.clock(), Clock::Pal);
    assert_eq!(SidModel::Mos6581.as_str(), "6581");
    assert_eq!(SidModel::Mos8580.as_str(), "8580");
    assert_eq!(SidModel::Both.as_str(), "6581/8580");
    assert_eq!(SidModel::Unknown.as_str(), "SID?");
}

#[test]
fn sw_psid_resolve_rejects_len_beyond_buffer() {
    let h = PsidHeader::parse(&make_header()).unwrap();
    let tune = make_header();
    assert_eq!(h.resolve_payload(&tune, 0x7D, 0x10000), Err(PsidError::BadOffsets));
}

#[test]
fn header_readable_needs_v2_flag_bytes() {
    let h = make_header();
    assert!(header_readable(&h));
    assert!(!header_readable(&h[..0x77]));
    assert!(header_readable(&h[..0x75]));
    let mut v1 = h;
    v1[0x05] = 1;
    assert!(header_readable(&v1[..0x76]));
}
