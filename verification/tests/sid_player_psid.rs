use tiliqua_fw::sid_player::psid::{PsidError, PsidHeader};
use tiliqua_fw::sid_player::sid_scan::is_sid_name;

fn be16(v: u16) -> [u8; 2] {
    v.to_be_bytes()
}

fn make_header() -> [u8; 0x7C] {
    let mut h = [0u8; 0x7C];
    h[0..4].copy_from_slice(b"PSID");
    h[0x04..0x06].copy_from_slice(&be16(2));
    h[0x06..0x08].copy_from_slice(&be16(0x7C));
    h[0x08..0x0A].copy_from_slice(&be16(0x1000));
    h[0x0A..0x0C].copy_from_slice(&be16(0x1000));
    h[0x0C..0x0E].copy_from_slice(&be16(0x1003));
    h[0x0E..0x10].copy_from_slice(&be16(3));
    h[0x10..0x12].copy_from_slice(&be16(1));
    h[0x12..0x16].copy_from_slice(&2u32.to_be_bytes());
    h
}

#[test]
fn parses_v2_header() {
    let h = PsidHeader::parse(&make_header()).unwrap();
    assert_eq!(h.version, 2);
    assert_eq!(h.init_addr, 0x1000);
    assert_eq!(h.play_addr, 0x1003);
    assert_eq!(h.songs, 3);
    assert_eq!(h.start_song, 1);
}

#[test]
fn rejects_bad_magic() {
    let mut h = make_header();
    h[0] = b'X';
    assert_eq!(PsidHeader::parse(&h), Err(PsidError::BadMagic));
}

#[test]
fn ntsc_speed_bit() {
    let h = PsidHeader::parse(&make_header()).unwrap();
    assert!(!h.is_ntsc(1));
    assert!(h.is_ntsc(2));
}

#[test]
fn load_addr_from_payload_when_zero() {
    let mut hb = make_header();
    hb[0x08..0x0A].copy_from_slice(&be16(0));
    let h = PsidHeader::parse(&hb).unwrap();
    assert_eq!(h.effective_load_addr(&[0x00, 0x20]), 0x2000);
}

#[test]
fn player_psid_rejects_short_and_unknown_version() {
    let h = make_header();
    assert_eq!(PsidHeader::parse(&h[..0x75]), Err(PsidError::TooShort));
    let mut v3 = make_header();
    v3[0x04..0x06].copy_from_slice(&be16(3));
    assert_eq!(PsidHeader::parse(&v3), Err(PsidError::UnsupportedVersion));
    let mut v1 = make_header();
    v1[0x04..0x06].copy_from_slice(&be16(1));
    assert_eq!(PsidHeader::parse(&v1[..0x76]).unwrap().version, 1);
}

#[test]
fn player_psid_speed_bit_clamps_song_index() {
    let mut hb = make_header();
    hb[0x12..0x16].copy_from_slice(&0x8000_0001u32.to_be_bytes());
    let h = PsidHeader::parse(&hb).unwrap();
    assert!(h.is_ntsc(0));
    assert!(h.is_ntsc(1));
    assert!(h.is_ntsc(32));
    assert!(h.is_ntsc(200));
    assert!(!h.is_ntsc(2));
    assert_eq!(h.speed, 0x8000_0001);
}

#[test]
fn player_sid_names() {
    assert!(is_sid_name(b"MUSIC.SID"));
    assert!(is_sid_name(b"0.sid"));
    assert!(!is_sid_name(b"READ.ME"));
    assert!(!is_sid_name(b"SID"));
}
