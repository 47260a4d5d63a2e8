use tiliqua_fw::mbsid::fat::{MemDisk, MscStorage, SeekFrom};

#[test]
fn write_rmw_lands_after_flush() {
    let disk = MemDisk::new(vec![0xAAu8; 8 * 512]);
    let disk = {
        let mut s = MscStorage::new(disk);
        s.seek(SeekFrom::Start(512 + 5)).unwrap();
        s.write(&[1, 2, 3]).unwrap();
        s.flush().unwrap();
        s.into_inner()
    };
    assert_eq!(disk.write_count(), 1);
    assert_eq!(&disk.bytes()[512 + 5..512 + 8], &[1, 2, 3]);
    assert_eq!(disk.bytes()[512 + 4], 0xAA);
}

#[test]
fn crossing_sector_boundary_writes_back_dirty_sector() {
    let disk = MemDisk::new(vec![0u8; 8 * 512]);
    let disk = {
        let mut s = MscStorage::new(disk);
        s.seek(SeekFrom::Start(510)).unwrap();
        s.write(&[9; 4]).unwrap();
        s.flush().unwrap();
        s.into_inner()
    };
    assert_eq!(&disk.bytes()[510..514], &[9, 9, 9, 9]);
    assert!(disk.write_count() >= 2);
}

#[test]
fn read_of_other_sector_evicts_dirty_cache_first() {
    let disk = MemDisk::new(vec![0u8; 8 * 512]);
    let disk = {
        let mut s = MscStorage::new(disk);
        s.seek(SeekFrom::Start(0)).unwrap();
        s.write(&[7; 8]).unwrap();
        s.seek(SeekFrom::Start(3 * 512)).unwrap();
        let mut b = [0u8; 4];
        s.read(&mut b).unwrap();
        s.into_inner()
    };
    assert_eq!(&disk.bytes()[0..8], &[7; 8]);
}

#[test]
fn write_spanning_sectors_returns_partial_count_on_second_sector_error() {
    let mut disk = MemDisk::new(vec![0u8; 8 * 512]);
    disk.fail_next_read(1);
    let (n, disk) = {
        let mut s = MscStorage::new(disk);
        s.seek(SeekFrom::Start(510)).unwrap();
        let n = s.write(&[9; 4]).expect("partial write must succeed, not error out");
        s.flush().unwrap();
        (n, s.into_inner())
    };
    assert_eq!(n, 2, "only sector 0's 2 bytes were written this call");
    assert_eq!(&disk.bytes()[510..512], &[9, 9], "sector 0's dirty data was not lost/orphaned");
    assert_eq!(disk.write_count(), 1, "only sector 0 was ever flushed to the disk");
}

#[test]
fn storage_reads_stop_at_sector_end_and_see_unflushed_writes() {
    let mut img = vec![0u8; 4 * 512];
    for (i, b) in img.iter_mut().enumerate() {
        *b = (i % 251) as u8;
    }
    let mut s = MscStorage::new(MemDisk::new(img.clone()));
    assert_eq!(s.base_lba(), 0);
    s.seek(SeekFrom::Start(500)).unwrap();
    let mut b = [0u8; 20];
    assert_eq!(s.read(&mut b).unwrap(), 12);
    assert_eq!(&b[..12], &img[500..512]);
    assert_eq!(&b[12..], &[0u8; 8]);
    assert_eq!(s.seek(SeekFrom::Current(-12)).unwrap(), 500);
    s.write(&[0xEE; 3]).unwrap();
    s.seek(SeekFrom::Current(-3)).unwrap();
    let mut c = [0u8; 3];
    assert_eq!(s.read(&mut c).unwrap(), 3);
    assert_eq!(c, [0xEE; 3]);
    let d = s.into_inner();
    // Never flushed: the device still holds the old bytes.
    assert_eq!(&d.bytes()[500..503], &img[500..503]);
    assert_eq!(d.write_count(), 0);
}

#[test]
fn storage_seek_rules_and_empty_transfers() {
    let mut s = MscStorage::new(MemDisk::new(vec![0u8; 2 * 512]));
    assert!(s.seek(SeekFrom::End(0)).is_err());
    assert!(s.seek(SeekFrom::Current(-1)).is_err());
    assert!(s.seek(SeekFrom::Start(u64::MAX)).is_err());
    assert_eq!(s.seek(SeekFrom::Start(7)).unwrap(), 7);
    assert_eq!(s.read(&mut []).unwrap(), 0);
    assert_eq!(s.write(&[]).unwrap(), 0);
    // Past the end of the device nothing can be read or written.
    s.seek(SeekFrom::Start(5 * 512)).unwrap();
    let mut b = [0u8; 4];
    assert!(s.read(&mut b).is_err());
    assert!(s.write(&[1]).is_err());
}

#[test]
fn storage_mounts_at_mbr_partition_start() {
    let mut img = vec![0u8; 8 * 512];
    img[510] = 0x55;
    img[511] = 0xAA;
    img[446 + 4] = 0x0C;
    img[446 + 8] = 2;
    img[2 * 512] = 0x42;
    let mut s = MscStorage::new(MemDisk::new(img));
    assert_eq!(s.base_lba(), 2);
    let mut b = [0u8; 1];
    s.read(&mut b).unwrap();
    assert_eq!(b[0], 0x42);
}

#[test]
fn stream_pos_follows_reads_and_seeks() {
    let mut s = MscStorage::new(MemDisk::new(vec![0u8; 4 * 512]));
    assert_eq!(s.stream_pos(), 0);
    let mut buf = [0u8; 100];
    assert_eq!(s.read(&mut buf).unwrap(), 100);
    assert_eq!(s.stream_pos(), 100);
    s.seek(SeekFrom::Current(-40)).unwrap();
    assert_eq!(s.stream_pos(), 60);
    let mut big = [0u8; 1000];
    assert_eq!(s.read(&mut big).unwrap(), 452);
    assert_eq!(s.stream_pos(), 512);
}
