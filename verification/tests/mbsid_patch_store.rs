use tiliqua_fw::mbsid::nor_store::{NorStore, RamNor};
use tiliqua_fw::mbsid::patch_store::{payload_checksum, UserPatchStore, HEADER_LEN, SLOT_SIZE};

const MOCK_SLOTS: usize = 4;
const MOCK_SIZE: usize = MOCK_SLOTS * SLOT_SIZE as usize;

fn test_patch(seed: u8) -> [u8; 512] {
    let mut p = [0u8; 512];
    for (i, b) in p.iter_mut().enumerate() {
        *b = (i as u8).wrapping_mul(31).wrapping_add(seed);
    }
    p[..16].copy_from_slice(b"USER PATCH NAME ");
    p
}

#[test]
fn empty_slots_load_false() {
    let mut s = UserPatchStore::new(RamNor::new(MOCK_SIZE), 0);
    let mut out = [0u8; 512];
    for slot in 0..MOCK_SLOTS as u8 {
        assert!(!s.load(slot, &mut out), "erased slot must be empty");
        let mut n = [0u8; 16];
        assert!(!s.name(slot, &mut n));
    }
}

#[test]
fn save_load_roundtrip() {
    let mut s = UserPatchStore::new(RamNor::new(MOCK_SIZE), 0);
    let p = test_patch(7);
    s.save(2, &p).unwrap();
    let mut out = [0u8; 512];
    assert!(s.load(2, &mut out));
    assert_eq!(out, p);
    assert!(!s.load(1, &mut out));
    assert!(!s.load(3, &mut out));
}

#[test]
fn name_reads_payload_head() {
    let mut s = UserPatchStore::new(RamNor::new(MOCK_SIZE), 0);
    s.save(0, &test_patch(1)).unwrap();
    let mut n = [0u8; 16];
    assert!(s.name(0, &mut n));
    assert_eq!(&n, b"USER PATCH NAME ");
}

#[test]
fn overwrite_slot() {
    let mut s = UserPatchStore::new(RamNor::new(MOCK_SIZE), 0);
    s.save(1, &test_patch(1)).unwrap();
    s.save(1, &test_patch(2)).unwrap();
    let mut out = [0u8; 512];
    assert!(s.load(1, &mut out));
    assert_eq!(out, test_patch(2));
}

#[test]
fn corrupted_payload_fails_checksum() {
    let flash = RamNor::new(MOCK_SIZE);
    let mut s = UserPatchStore::new(flash, 0);
    s.save(0, &test_patch(3)).unwrap();
    let mut f = s.into_inner();
    let i = HEADER_LEN as usize + 100;
    let b = f.byte_at(i);
    f.set_byte(i, b & 0x00);
    let mut s = UserPatchStore::new(f, 0);
    let mut out = [0u8; 512];
    assert!(!s.load(0, &mut out), "bad checksum must read as empty");
}

#[test]
fn torn_write_header_missing_reads_empty() {
    let mut flash = RamNor::new(MOCK_SIZE);
    let p = test_patch(4);
    flash.erase(0, SLOT_SIZE).unwrap();
    flash.write(HEADER_LEN, &p).unwrap();
    let mut s = UserPatchStore::new(flash, 0);
    let mut out = [0u8; 512];
    assert!(!s.load(0, &mut out));
}

#[test]
fn wrong_version_reads_empty() {
    let mut s = UserPatchStore::new(RamNor::new(MOCK_SIZE), 0);
    s.save(0, &test_patch(5)).unwrap();
    let mut f = s.into_inner();
    let b = f.byte_at(4);
    f.set_byte(4, b & 0x02);
    let mut s = UserPatchStore::new(f, 0);
    let mut out = [0u8; 512];
    assert!(!s.load(0, &mut out));
}

#[test]
fn nonzero_base_addressing() {
    let mut s = UserPatchStore::new(RamNor::new(MOCK_SIZE), SLOT_SIZE);
    s.save(0, &test_patch(6)).unwrap();
    let mut out = [0u8; 512];
    assert!(s.load(0, &mut out));
    let f = s.into_inner();
    let b = SLOT_SIZE as usize;
    let magic: Vec<u8> = (b..b + 4).map(|i| f.byte_at(i)).collect();
    assert_eq!(&magic[..], b"MBUP");
    let head: Vec<u8> = (0..8).map(|i| f.byte_at(i)).collect();
    assert_eq!(&head[..], &[0xFF; 8]);
}

#[test]
fn payload_checksum_is_wrapping_byte_sum() {
    assert_eq!(payload_checksum(&[0u8; 512]), 0);
    assert_eq!(payload_checksum(&[0xFFu8; 512]), ((512u32 * 255) % 65536) as u16);
    let mut p = [0u8; 512];
    p[0] = 1;
    p[511] = 2;
    assert_eq!(payload_checksum(&p), 3);
}

#[test]
fn patch_store_header_layout_is_little_endian_checksum() {
    let mut s = UserPatchStore::new(RamNor::new(MOCK_SIZE), 0);
    let p = test_patch(9);
    s.save(3, &p).unwrap();
    let f = s.into_inner();
    let a = 3 * SLOT_SIZE as usize;
    let c = payload_checksum(&p);
    assert_eq!(f.byte_at(a + 4), 1);
    assert_eq!(f.byte_at(a + 5), 0);
    assert_eq!(f.byte_at(a + 6), (c & 0xFF) as u8);
    assert_eq!(f.byte_at(a + 7), (c >> 8) as u8);
}

#[test]
fn patch_store_save_past_flash_end_errors() {
    let mut s = UserPatchStore::new(RamNor::new(MOCK_SIZE), 0);
    assert!(s.save(4, &test_patch(1)).is_err());
    let mut out = [0u8; 512];
    assert!(!s.load(4, &mut out));
    assert!(!s.load(200, &mut out));
}

#[test]
fn flash_mut_reaches_the_same_flash() {
    let mut store = UserPatchStore::new(RamNor::new(MOCK_SIZE), 0);
    let p = test_patch(3);
    assert!(store.save(1, &p).is_ok());
    let mut rec = [0u8; 4];
    store.flash_mut().read(SLOT_SIZE + HEADER_LEN, &mut rec).unwrap();
    assert_eq!(rec, [p[0], p[1], p[2], p[3]]);
    store.flash_mut().erase(SLOT_SIZE, 2 * SLOT_SIZE).unwrap();
    let mut out = [0u8; 512];
    assert!(!store.load(1, &mut out));
}
