use tiliqua_fw::mbsid::fat::{BlockIo, MemDisk};
use tiliqua_fw::mbsid::partition::{first_partition_lba, volume_start_of, GPT_PROTECTIVE, MBR_PART0, PART_LBA, PART_TYPE, SIG_OFF};

fn blank() -> [u8; 512] {
    [0u8; 512]
}

/// A disk of four sectors holding the given canned sectors, zeros elsewhere.
fn disk(sectors: Vec<(u32, [u8; 512])>) -> MemDisk {
    let mut img = vec![0u8; 4 * 512];
    for (l, s) in sectors {
        let o = l as usize * 512;
        img[o..o + 512].copy_from_slice(&s);
    }
    MemDisk::new(img)
}

#[test]
fn gpt_returns_partition_start() {
    let mut lba0 = blank();
    lba0[SIG_OFF] = 0x55;
    lba0[SIG_OFF + 1] = 0xAA;
    lba0[MBR_PART0 + PART_TYPE] = GPT_PROTECTIVE;

    let mut lba1 = blank();
    lba1[0..8].copy_from_slice(b"EFI PART");
    lba1[72..76].copy_from_slice(&2u32.to_le_bytes());

    let mut lba2 = blank();
    lba2[0] = 0x01;
    lba2[32..36].copy_from_slice(&34u32.to_le_bytes());

    let mut f = disk(vec![(0, lba0), (1, lba1), (2, lba2)]);
    assert_eq!(first_partition_lba(&mut f), 34);
}

#[test]
fn classic_mbr_returns_partition_start() {
    let mut lba0 = blank();
    lba0[SIG_OFF] = 0x55;
    lba0[SIG_OFF + 1] = 0xAA;
    lba0[MBR_PART0 + PART_TYPE] = 0x0C;
    lba0[MBR_PART0 + PART_LBA..MBR_PART0 + PART_LBA + 4].copy_from_slice(&2048u32.to_le_bytes());

    let mut f = disk(vec![(0, lba0)]);
    assert_eq!(first_partition_lba(&mut f), 2048);
}

#[test]
fn superfloppy_returns_zero() {
    let mut lba0 = blank();
    lba0[0] = 0xEB;
    lba0[1] = 0x58;
    lba0[2] = 0x90;
    lba0[11..13].copy_from_slice(&512u16.to_le_bytes());
    lba0[SIG_OFF] = 0x55;
    lba0[SIG_OFF + 1] = 0xAA;

    let mut f = disk(vec![(0, lba0)]);
    assert_eq!(first_partition_lba(&mut f), 0);
}

#[test]
fn garbage_falls_back_to_zero() {
    let mut f = disk(vec![(0, blank())]);
    assert_eq!(first_partition_lba(&mut f), 0);
}

#[test]
fn partition_read_failure_falls_back_to_zero() {
    let mut lba0 = blank();
    lba0[SIG_OFF] = 0x55;
    lba0[SIG_OFF + 1] = 0xAA;
    lba0[MBR_PART0 + PART_TYPE] = 0x0C;
    lba0[MBR_PART0 + PART_LBA..MBR_PART0 + PART_LBA + 4].copy_from_slice(&2048u32.to_le_bytes());
    let mut f = disk(vec![(0, lba0)]);
    f.fail_next_read(0);
    assert_eq!(first_partition_lba(&mut f), 0);
    // The failure was one-shot: the next probe sees the MBR.
    assert_eq!(first_partition_lba(&mut f), 2048);
}

#[test]
fn partition_skips_empty_mbr_entries() {
    let mut lba0 = blank();
    lba0[SIG_OFF] = 0x55;
    lba0[SIG_OFF + 1] = 0xAA;
    // Entry 0 empty, entry 2 holds the volume.
    let e2 = MBR_PART0 + 2 * 16;
    lba0[e2 + PART_TYPE] = 0x0B;
    lba0[e2 + PART_LBA..e2 + PART_LBA + 4].copy_from_slice(&63u32.to_le_bytes());
    let mut f = disk(vec![(0, lba0)]);
    assert_eq!(first_partition_lba(&mut f), 63);
}

#[test]
fn memdisk_write_block_roundtrip_and_bounds() {
    let mut d = MemDisk::new(vec![0u8; 1024]);
    let mut s = [0u8; 512];
    s[0] = 9;
    assert!(d.write_block(1, &s).is_ok());
    assert!(d.write_block(2, &s).is_err());
    assert_eq!(d.write_count(), 1);
    let mut back = [0u8; 512];
    assert!(d.read_block(1, &mut back).is_ok());
    assert_eq!(back[0], 9);
    assert_eq!(d.bytes()[512], 9);
}

fn gpt_sectors() -> ([u8; 512], [u8; 512], [u8; 512]) {
    let mut lba0 = blank();
    lba0[SIG_OFF] = 0x55;
    lba0[SIG_OFF + 1] = 0xAA;
    lba0[MBR_PART0 + PART_TYPE] = GPT_PROTECTIVE;
    let mut lba1 = blank();
    lba1[0..8].copy_from_slice(b"EFI PART");
    lba1[72..76].copy_from_slice(&2u32.to_le_bytes());
    let mut lba2 = blank();
    lba2[0] = 0x01;
    lba2[32..36].copy_from_slice(&34u32.to_le_bytes());
    (lba0, lba1, lba2)
}

#[test]
fn gpt_header_read_failure_falls_back_to_zero() {
    let (lba0, lba1, lba2) = gpt_sectors();
    let mut f = disk(vec![(0, lba0), (1, lba1), (2, lba2)]);
    f.fail_next_read(1);
    assert_eq!(first_partition_lba(&mut f), 0);
    assert_eq!(first_partition_lba(&mut f), 34);
}

#[test]
fn gpt_entry_read_failure_falls_back_to_zero() {
    let (lba0, lba1, lba2) = gpt_sectors();
    let mut f = disk(vec![(0, lba0), (1, lba1), (2, lba2)]);
    f.fail_next_read(2);
    assert_eq!(first_partition_lba(&mut f), 0);
    assert_eq!(first_partition_lba(&mut f), 34);
}

#[test]
fn volume_start_of_failed_reads_give_zero() {
    let (lba0, lba1, lba2) = gpt_sectors();
    assert_eq!(volume_start_of(Some(&lba0), Some(&lba1), Some(&lba2)), 34);
    assert_eq!(volume_start_of(None, Some(&lba1), Some(&lba2)), 0);
    assert_eq!(volume_start_of(Some(&lba0), None, Some(&lba2)), 0);
    assert_eq!(volume_start_of(Some(&lba0), Some(&lba1), None), 0);
    // A GPT header without its signature, or an unused first entry.
    assert_eq!(volume_start_of(Some(&lba0), Some(&blank()), Some(&lba2)), 0);
    assert_eq!(volume_start_of(Some(&lba0), Some(&lba1), Some(&blank())), 0);
}

#[test]
fn volume_start_of_mbr_ignores_gpt_reads() {
    let mut lba0 = blank();
    lba0[SIG_OFF] = 0x55;
    lba0[SIG_OFF + 1] = 0xAA;
    lba0[MBR_PART0 + PART_TYPE] = 0x0C;
    lba0[MBR_PART0 + PART_LBA..MBR_PART0 + PART_LBA + 4].copy_from_slice(&2048u32.to_le_bytes());
    assert_eq!(volume_start_of(Some(&lba0), None, None), 2048);
    // Without the boot signature the table is not trusted.
    lba0[SIG_OFF + 1] = 0;
    assert_eq!(volume_start_of(Some(&lba0), None, None), 0);
}
