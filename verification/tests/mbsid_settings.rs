use tiliqua_fw::mbsid::nor_store::{NorStore, RamNor};
use tiliqua_fw::mbsid::settings_store::{decode, encode, load, save, Settings};

const MOCK_SIZE: usize = 8192;

#[test]
fn roundtrip() {
    let s = Settings { midi_src: 1, cv_targets: [0, 3, 11, 12], usb_mode: 0 };
    assert_eq!(decode(&encode(&s)), Some(s));
}

#[test]
fn corrupt_records_rejected() {
    let s = Settings { midi_src: 1, cv_targets: [1, 2, 3, 4], usb_mode: 0 };
    let good = encode(&s);
    let mut bad_magic = good;
    bad_magic[0] ^= 0xFF;
    assert_eq!(decode(&bad_magic), None);
    let mut bad_ver = good;
    bad_ver[4] = 99;
    assert_eq!(decode(&bad_ver), None);
    let mut bad_sum = good;
    bad_sum[6] ^= 0x01;
    assert_eq!(decode(&bad_sum), None);
}

#[test]
fn load_defaults_on_blank_flash() {
    let mut f = RamNor::new(MOCK_SIZE);
    let s = load(&mut f, 0);
    assert_eq!(s, Settings::default());
}

#[test]
fn save_then_load_and_identical_save_skips_erase() {
    let mut f = RamNor::new(MOCK_SIZE);
    let s = Settings { midi_src: 1, cv_targets: [12, 11, 0, 0], usb_mode: 0 };
    save(&mut f, 0, &s).unwrap();
    assert_eq!(load(&mut f, 0), s);
    let erases_before = f.erase_count();
    save(&mut f, 0, &s).unwrap();
    assert_eq!(f.erase_count(), erases_before);
}

#[test]
fn v2_roundtrip_with_usb_mode() {
    let s = Settings { midi_src: 1, cv_targets: [0, 3, 11, 12], usb_mode: 1 };
    assert_eq!(decode(&encode(&s)), Some(s));
}

#[test]
fn v1_record_decodes_with_usb_mode_default() {
    let s = Settings { midi_src: 1, cv_targets: [1, 2, 3, 4], usb_mode: 0 };
    let mut r = encode(&s);
    r[4] = 1;
    let sum: u8 = r[..15].iter().fold(0u8, |a, &b| a.wrapping_add(b));
    r[15] = sum.wrapping_neg();
    assert_eq!(decode(&r), Some(s));
}

#[test]
fn unknown_version_rejected() {
    let s = Settings::default();
    let mut r = encode(&s);
    r[4] = 3;
    let sum: u8 = r[..15].iter().fold(0u8, |a, &b| a.wrapping_add(b));
    r[15] = sum.wrapping_neg();
    assert_eq!(decode(&r), None);
}

#[test]
fn settings_record_exact_bytes() {
    let s = Settings { midi_src: 1, cv_targets: [2, 3, 4, 5], usb_mode: 1 };
    let r = encode(&s);
    assert_eq!(&r[..11], &[b'M', b'B', b'S', b'5', 2, 1, 2, 3, 4, 5, 1]);
    assert_eq!(&r[11..15], &[0, 0, 0, 0]);
    let sum: u8 = r.iter().fold(0u8, |a, &b| a.wrapping_add(b));
    assert_eq!(sum, 0);
}

#[test]
fn settings_usb_mode_high_bits_are_masked_on_decode() {
    let s = Settings { midi_src: 0, cv_targets: [0, 0, 0, 0], usb_mode: 3 };
    let d = decode(&encode(&s)).unwrap();
    assert_eq!(d.usb_mode, 1);
}

#[test]
fn settings_save_to_flash_too_small_fails_and_load_defaults() {
    let mut f = RamNor::new(100);
    let s = Settings { midi_src: 1, cv_targets: [1, 1, 1, 1], usb_mode: 0 };
    assert!(save(&mut f, 0, &s).is_err());
    assert_eq!(load(&mut f, 0), Settings::default());
}

#[test]
fn settings_save_over_different_record_erases_once() {
    let mut f = RamNor::new(MOCK_SIZE);
    let a = Settings { midi_src: 0, cv_targets: [1, 2, 3, 4], usb_mode: 0 };
    let b = Settings { midi_src: 1, cv_targets: [4, 3, 2, 1], usb_mode: 1 };
    save(&mut f, 4096, &a).unwrap();
    assert_eq!(f.erase_count(), 1);
    save(&mut f, 4096, &b).unwrap();
    assert_eq!(f.erase_count(), 2);
    assert_eq!(load(&mut f, 4096), b);
    // The first sector was never touched.
    let mut head = [0u8; 16];
    f.read(0, &mut head).unwrap();
    assert_eq!(head, [0xFF; 16]);
}
