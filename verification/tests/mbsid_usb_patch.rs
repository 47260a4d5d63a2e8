use tiliqua_fw::mbsid::usb_patch::{
    bank_counts_agree, candidate, encode_syx, ends_with_ext, is_syx_name, parse_patch_file, BankScan, BankSummary,
    ScanStep,
};

fn test_patch(seed: u8) -> [u8; 512] {
    let mut p = [0u8; 512];
    for (i, b) in p.iter_mut().enumerate() {
        *b = (i as u8).wrapping_mul(31).wrapping_add(seed);
    }
    p
}

fn syx(p: &[u8; 512], slot: u8) -> [u8; 1036] {
    let mut out = [0u8; 1036];
    encode_syx(p, slot, &mut out);
    out
}

#[test]
fn encode_syx_roundtrips_through_file_parser() {
    let p = test_patch(9);
    let mut syx = [0u8; 1036];
    encode_syx(&p, 5, &mut syx);
    let mut dst = [0u8; 512];
    assert!(parse_patch_file(&syx, &mut dst));
    assert_eq!(dst, p);
    assert_eq!(syx[8], 0x01);
    assert_eq!(syx[9], 5);
}

#[test]
fn usb_patch_encode_syx_frame_and_checksum() {
    let p = [0x21u8; 512];
    let s = syx(&p, 0x85);
    assert_eq!(&s[..10], &[0xF0, 0x00, 0x00, 0x7E, 0x4B, 0x00, 0x02, 0x00, 0x01, 0x05]);
    assert_eq!(s[10], 0x01);
    assert_eq!(s[11], 0x02);
    // 512 * (1 + 2) = 1536; -1536 & 0x7F = 0
    assert_eq!(s[1034], ((-(1536i32)) & 0x7F) as u8);
    assert_eq!(s[1035], 0xF7);
}

#[test]
fn usb_patch_raw_512_is_taken_verbatim_and_junk_is_rejected() {
    let p = test_patch(3);
    let mut dst = [0u8; 512];
    assert!(parse_patch_file(&p, &mut dst));
    assert_eq!(dst, p);
    let mut untouched = [7u8; 512];
    assert!(!parse_patch_file(&[0u8; 100], &mut untouched));
    assert_eq!(untouched, [7u8; 512]);
    // A broken checksum is not a patch file.
    let mut bad = syx(&p, 1);
    bad[1034] = (bad[1034] + 1) & 0x7F;
    assert!(!parse_patch_file(&bad, &mut untouched));
}

#[test]
fn usb_patch_parse_skips_leading_garbage() {
    let p = test_patch(4);
    let mut bytes = vec![0x11u8, 0x22, 0xF7];
    bytes.extend_from_slice(&syx(&p, 2));
    let mut dst = [0u8; 512];
    assert!(parse_patch_file(&bytes, &mut dst));
    assert_eq!(dst, p);
}

#[test]
fn usb_patch_name_filters() {
    assert!(is_syx_name(b"PATCH.SYX"));
    assert!(is_syx_name(b"patch.syx"));
    assert!(is_syx_name(b".SyX"));
    assert!(!is_syx_name(b"SYX"));
    assert!(!is_syx_name(b"PATCH.SID"));
    assert!(ends_with_ext(b"MUSIC.SID", b'.', b'S', b'I', b'D'));
    assert!(candidate(b"A.SYX", 1036));
    assert!(candidate(b"A.SYX", 2048));
    assert!(!candidate(b"A.SYX", 2049));
    assert!(candidate(b"RAW.BIN", 512));
    assert!(!candidate(b"RAW.BIN", 513));
}

#[test]
fn usb_patch_bank_summary_refuses_duplicate_slots() {
    let mut s = BankSummary::empty();
    assert!(!s.has(127));
    assert!(s.add_slot(127));
    assert!(s.has(127));
    assert!(!s.add_slot(127));
    assert!(s.add_slot(0));
    assert!(s.has(0) && !s.has(1));
    assert_eq!(s.count, 0);
}

/// Runs a bank file through the scanner: (slots captured, finish result).
fn scan(bytes: &[u8]) -> (Vec<u8>, Option<(u8, u16)>, bool) {
    let mut sc = BankScan::new();
    let mut slots = Vec::new();
    for &b in bytes {
        match sc.feed(b) {
            ScanStep::Continue => {}
            ScanStep::Patch(s) => slots.push(s),
            ScanStep::TooMany => return (slots, None, true),
        }
    }
    (slots, sc.finish(), false)
}

#[test]
fn usb_patch_bank_scan_counts_messages_and_starts() {
    let mut bytes = Vec::new();
    for s in [3u8, 50, 100] {
        bytes.extend_from_slice(&syx(&test_patch(s), s));
    }
    let (slots, fin, too_many) = scan(&bytes);
    assert!(!too_many);
    assert_eq!(slots, vec![3, 50, 100]);
    let (c, st) = fin.unwrap();
    assert_eq!((c, st), (3, 3));
    assert!(bank_counts_agree(c, st));
}

#[test]
fn usb_patch_bank_scan_detects_skipped_bad_message_and_truncation() {
    let mut bytes = Vec::new();
    bytes.extend_from_slice(&syx(&test_patch(1), 1));
    let mut bad = syx(&test_patch(2), 2);
    bad[1034] = (bad[1034] + 1) & 0x7F;
    bytes.extend_from_slice(&bad);
    let (_, fin, _) = scan(&bytes);
    let (c, st) = fin.unwrap();
    assert!(!bank_counts_agree(c, st));
    // Truncated tail: ends mid-message.
    let whole = syx(&test_patch(3), 3);
    let (_, fin2, _) = scan(&whole[..100]);
    assert_eq!(fin2, None);
    // No messages at all.
    let (_, fin3, _) = scan(b"hello");
    assert_eq!(fin3, None);
}

#[test]
fn usb_patch_bank_scan_rejects_more_than_128_messages() {
    let one = syx(&test_patch(0), 0);
    let mut bytes = Vec::new();
    for _ in 0..129 {
        bytes.extend_from_slice(&one);
    }
    let (slots, _, too_many) = scan(&bytes);
    assert!(too_many);
    assert_eq!(slots.len(), 128);
}

#[test]
fn usb_patch_bank_scan_data_is_last_body() {
    let p = test_patch(77);
    let mut sc = BankScan::new();
    let mut got = None;
    for &b in syx(&p, 9).iter() {
        if let ScanStep::Patch(s) = sc.feed(b) {
            got = Some((s, *sc.data()));
        }
    }
    let (s, d) = got.unwrap();
    assert_eq!(s, 9);
    assert_eq!(d, p);
}
