use std::io::{self, Cursor, Read, Seek, Write};

use fatfs::{format_volume, FileSystem, FormatVolumeOptions, FsOptions};
use tiliqua_fw::mbsid::bank_import::{import_bank, ImportOutcome};
use tiliqua_fw::mbsid::fat::{MemDisk, MscStorage, SeekFrom};
use tiliqua_fw::mbsid::nor_store::RamNor;
use tiliqua_fw::mbsid::partition::first_partition_lba;
use tiliqua_fw::mbsid::patch_store::{UserPatchStore, SLOT_SIZE};
use tiliqua_fw::mbsid::usb_patch::{candidate, encode_syx, parse_patch_file};
use tiliqua_fw::sid_player::sid_scan::is_sid_name;

const SECTOR: usize = 512;
const BASE_LBA: u32 = 34;

/// A GPT-partitioned disk image whose single FAT volume starts at
/// `BASE_LBA` and holds the given files.
fn build_gpt_fat_image(files: &[(&str, &[u8])]) -> Vec<u8> {
    let fat_bytes = 4 * 1024 * 1024;
    let mut fat_region = vec![0u8; fat_bytes];
    format_volume(Cursor::new(&mut fat_region[..]), FormatVolumeOptions::new()).unwrap();
    {
        let fs = FileSystem::new(Cursor::new(&mut fat_region[..]), FsOptions::new()).unwrap();
        let root = fs.root_dir();
        for (name, contents) in files {
            let mut f = root.create_file(name).unwrap();
            f.write_all(contents).unwrap();
            f.flush().unwrap();
        }
    }
    let base = BASE_LBA as usize * SECTOR;
    let mut img = vec![0u8; base + fat_bytes];
    img[base..].copy_from_slice(&fat_region);
    // Protective MBR, GPT header pointing at the entry array in LBA 2, and
    // one entry starting at BASE_LBA.
    img[510] = 0x55;
    img[511] = 0xAA;
    img[446 + 4] = 0xEE;
    img[512..520].copy_from_slice(b"EFI PART");
    img[512 + 72..512 + 76].copy_from_slice(&2u32.to_le_bytes());
    img[1024..1040].copy_from_slice(&[0x11u8; 16]);
    img[1024 + 32..1024 + 36].copy_from_slice(&BASE_LBA.to_le_bytes());
    img
}

/// The library's volume stream under `std::io`, as the file system wants it.
struct Vol(MscStorage<MemDisk>);

fn disk_err() -> io::Error {
    io::Error::new(io::ErrorKind::Other, "disk")
}

impl Read for Vol {
    fn read(&mut self, buf: &mut [u8]) -> io::Result<usize> {
        self.0.read(buf).map_err(|_| disk_err())
    }
}

impl Write for Vol {
    fn write(&mut self, buf: &[u8]) -> io::Result<usize> {
        self.0.write(buf).map_err(|_| disk_err())
    }
    fn flush(&mut self) -> io::Result<()> {
        self.0.flush().map_err(|_| disk_err())
    }
}

impl Seek for Vol {
    fn seek(&mut self, pos: io::SeekFrom) -> io::Result<u64> {
        let to = match pos {
            io::SeekFrom::Start(n) => SeekFrom::Start(n),
            io::SeekFrom::End(n) => SeekFrom::End(n),
            io::SeekFrom::Current(n) => SeekFrom::Current(n),
        };
        self.0.seek(to).map_err(|_| disk_err())
    }
}

fn read_file(fs: &FileSystem<&mut Vol>, name: &str) -> Vec<u8> {
    let mut f = fs.root_dir().open_file(name).unwrap();
    let mut out = Vec::new();
    f.read_to_end(&mut out).unwrap();
    out
}

fn test_patch(seed: u8) -> [u8; 512] {
    let mut p = [0u8; 512];
    for (i, b) in p.iter_mut().enumerate() {
        *b = (i as u8).wrapping_mul(31).wrapping_add(seed);
    }
    p
}

#[test]
fn reading_lba0_directly_would_fail_to_mount() {
    let img = build_gpt_fat_image(&[("0.SID", b"PSID payload")]);
    let mut lba0_view = img.clone();
    assert!(FileSystem::new(Cursor::new(&mut lba0_view[..]), FsOptions::new()).is_err());
}

#[test]
fn gpt_volume_found_and_mounted_through_the_stream() {
    let sid0: &[u8] = b"PSID\x00\x02 first tune payload bytes";
    let music: &[u8] = b"PSID\x00\x02 second tune";
    let img = build_gpt_fat_image(&[("0.SID", sid0), ("READ.ME", b"not a tune"), ("MUSIC.SID", music)]);
    let mut disk = MemDisk::new(img);
    assert_eq!(first_partition_lba(&mut disk), BASE_LBA);

    let mut vol = Vol(MscStorage::new(disk));
    assert_eq!(vol.0.base_lba(), BASE_LBA);
    let fs = FileSystem::new(&mut vol, FsOptions::new()).unwrap();
    let mut tunes = Vec::new();
    for e in fs.root_dir().iter() {
        let e = e.unwrap();
        if !e.is_dir() && is_sid_name(e.short_file_name_as_bytes()) {
            tunes.push(e.short_file_name());
        }
    }
    assert_eq!(tunes, vec!["0.SID".to_string(), "MUSIC.SID".to_string()]);
    assert_eq!(read_file(&fs, "0.SID"), sid0);
    assert_eq!(read_file(&fs, "MUSIC.SID"), music);
}

#[test]
fn file_written_through_the_stream_survives_a_remount() {
    let p = test_patch(9);
    let mut syx = [0u8; 1036];
    encode_syx(&p, 9, &mut syx);
    let img = build_gpt_fat_image(&[("OLD.SYX", b"x")]);
    let mut vol = Vol(MscStorage::new(MemDisk::new(img)));
    {
        let fs = FileSystem::new(&mut vol, FsOptions::new()).unwrap();
        let mut f = fs.root_dir().create_file("P009.SYX").unwrap();
        f.truncate().unwrap();
        f.write_all(&syx).unwrap();
        f.flush().unwrap();
    }
    vol.0.flush().unwrap();
    let disk = vol.0.into_inner();
    let mut vol = Vol(MscStorage::new(disk));
    let fs = FileSystem::new(&mut vol, FsOptions::new()).unwrap();
    let back = read_file(&fs, "P009.SYX");
    assert_eq!(back.len(), 1036);
    assert!(candidate(b"P009.SYX", back.len() as u64));
    let mut dst = [0u8; 512];
    assert!(parse_patch_file(&back, &mut dst));
    assert_eq!(dst, p);
}

#[test]
fn bank_file_read_from_the_volume_imports() {
    let (p0, p5) = (test_patch(1), test_patch(2));
    let mut bank = Vec::new();
    for (slot, p) in [(0u8, &p0), (5u8, &p5)] {
        let mut m = [0u8; 1036];
        encode_syx(p, slot, &mut m);
        bank.extend_from_slice(&m);
    }
    let img = build_gpt_fat_image(&[("BANK.SYX", &bank)]);
    let mut vol = Vol(MscStorage::new(MemDisk::new(img)));
    let fs = FileSystem::new(&mut vol, FsOptions::new()).unwrap();
    let first = read_file(&fs, "BANK.SYX");
    let second = read_file(&fs, "BANK.SYX");
    let mut store = UserPatchStore::new(RamNor::new(128 * SLOT_SIZE as usize), 0);
    assert_eq!(import_bank(&first, &second, &mut store), ImportOutcome::Imported(2));
    let mut out = [0u8; 512];
    assert!(store.load(0, &mut out));
    assert_eq!(out, p0);
    assert!(store.load(5, &mut out));
    assert_eq!(out, p5);
    assert!(!store.load(1, &mut out));
}
