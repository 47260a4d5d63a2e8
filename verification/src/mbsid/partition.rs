//! Finds the starting LBA of the first FAT volume on a block device.
//!
//! * GPT: LBA 0 is a protective MBR (partition type `0xEE`), LBA 1 the GPT
//!   header, whose partition entry array gives the first partition's start.
//! * Classic MBR: LBA 0 holds four partition entries at offset `0x1BE`.
//! * Superfloppy: no partition table; LBA 0 is the FAT boot sector (start 0).
//!
//! Any read failure or unrecognised layout falls back to LBA 0.
use vstd::prelude::*;
use crate::mbsid::fat::BlockIo;

verus! {

pub const SIG_OFF: usize = 510;
pub const MBR_PART0: usize = 446;
pub const PART_TYPE: usize = 4;
pub const PART_LBA: usize = 8;
pub const GPT_PROTECTIVE: u8 = 0xEE;

/// The little-endian 32-bit word at `o`.
pub open spec fn le32(b: Seq<u8>, o: int) -> u32 {
    (b[o] + b[o + 1] * 0x100 + b[o + 2] * 0x1_0000 + b[o + 3] * 0x100_0000) as u32
}

/// A FAT boot sector: a jump instruction and a sane bytes-per-sector value.
pub open spec fn is_fat_bpb(b: Seq<u8>) -> bool {
    let bps = b[11] + b[12] * 256;
    (b[0] == 0xEB || b[0] == 0xE9) && (bps == 512 || bps == 1024 || bps == 2048 || bps == 4096)
}

/// The `0x55AA` boot signature.
pub open spec fn has_boot_signature(b: Seq<u8>) -> bool {
    b[SIG_OFF as int] == 0x55 && b[SIG_OFF + 1] == 0xAA
}

/// The GPT header signature `EFI PART`.
pub open spec fn is_gpt_header(b: Seq<u8>) -> bool {
    b.take(8) == seq![0x45u8, 0x46u8, 0x49u8, 0x20u8, 0x50u8, 0x41u8, 0x52u8, 0x54u8]
}

/// The first GPT partition entry has a non-zero type GUID.
pub open spec fn gpt_entry_used(b: Seq<u8>) -> bool {
    exists|i: int| 0 <= i < 16 && b[i] != 0
}

/// The start of the first classic MBR entry with a non-zero type among
/// entries `k..4`, or 0.
pub open spec fn mbr_start_from(b: Seq<u8>, k: int) -> u32
    decreases 4 - k,
{
    if k >= 4 {
        0
    } else {
        let e = MBR_PART0 + k * 16;
        if b[e + PART_TYPE] != 0 {
            le32(b, e + PART_LBA)
        } else {
            mbr_start_from(b, k + 1)
        }
    }
}

/// The LBA at which the first FAT volume of a disk starts, given its first
/// sector `s0`, second sector `s1`, and the sector `entries` that `s1` names
/// as the GPT partition entry array.
pub open spec fn volume_start(s0: Seq<u8>, s1: Seq<u8>, entries: Seq<u8>) -> u32 {
    if is_fat_bpb(s0) || !has_boot_signature(s0) {
        0
    } else if s0[MBR_PART0 + PART_TYPE] == GPT_PROTECTIVE {
        if !is_gpt_header(s1) || !gpt_entry_used(entries) {
            0
        } else {
            le32(entries, 32)
        }
    } else {
        mbr_start_from(s0, 0)
    }
}

/// The start of the first FAT volume of the disk `io` holds.
pub open spec fn disk_volume_start<B: BlockIo>(io: B) -> u32 {
    volume_start(io.sector(0), io.sector(1), io.sector(le32(io.sector(1), 72)))
}

/// Every read the volume search makes on `io` is sure to succeed: sector 0,
/// and for a GPT disk the header in sector 1 and the entry array it names.
pub open spec fn volume_readable<B: BlockIo>(io: B) -> bool {
    let s0 = io.sector(0);
    &&& io.answers(0)
    &&& (!is_fat_bpb(s0) && has_boot_signature(s0) && s0[MBR_PART0 + PART_TYPE] == GPT_PROTECTIVE ==> {
        &&& io.answers(1)
        &&& (is_gpt_header(io.sector(1)) ==> io.answers(le32(io.sector(1), 72)))
    })
}

fn le_u32(b: &[u8; 512], o: usize) -> (r: u32)
    requires
        o + 4 <= 512,
    ensures
        r == le32(b@, o as int),
{
    b[o] as u32 + (b[o + 1] as u32) * 0x100 + (b[o + 2] as u32) * 0x1_0000 + (b[o + 3] as u32) * 0x100_0000
}

fn looks_like_fat_bpb(blk: &[u8; 512]) -> (r: bool)
    ensures
        r == is_fat_bpb(blk@),
{
    let jump = blk[0] == 0xEB || blk[0] == 0xE9;
    let bps = blk[11] as u16 + (blk[12] as u16) * 256;
    jump && (bps == 512 || bps == 1024 || bps == 2048 || bps == 4096)
}

fn entry_used(blk: &[u8; 512]) -> (r: bool)
    ensures
        r == gpt_entry_used(blk@),
{
    let mut i: usize = 0;
    while i < 16 && blk[i] == 0
        invariant
            i <= 16,
            blk@.len() == 512,
            forall|k: int| 0 <= k < i ==> blk@[k] == 0,
        decreases 16 - i,
    {
        i = i + 1;
    }
    if i < 16 {
        assert(blk@[i as int] != 0);
        true
    } else {
        false
    }
}

fn mbr_first_start(blk: &[u8; 512]) -> (r: u32)
    ensures
        r == mbr_start_from(blk@, 0),
{
    let mut k: usize = 0;
    while k < 4
        invariant
            k <= 4,
            blk@.len() == 512,
            mbr_start_from(blk@, 0) == mbr_start_from(blk@, k as int),
        decreases 4 - k,
    {
        let e = MBR_PART0 + k * 16;
        if blk[e + PART_TYPE] != 0 {
            return le_u32(blk, e + PART_LBA);
        }
        k = k + 1;
    }
    0
}

/// `Some` of the bytes of a sector that was read, `None` where the read
/// failed or was not made.
pub open spec fn read_view(o: Option<&[u8; 512]>) -> Option<Seq<u8>> {
    match o {
        Some(b) => Some(b@),
        None => None,
    }
}

/// The start of the first FAT volume as decided from what the search read:
/// sector 0 (`o0`), the GPT header (`o1`) and the GPT entry array (`o2`),
/// each `None` where that read failed. A failed read that the decision
/// needs gives 0.
pub open spec fn start_from_reads(o0: Option<Seq<u8>>, o1: Option<Seq<u8>>, o2: Option<Seq<u8>>) -> u32 {
    match o0 {
        None => 0,
        Some(s0) => if is_fat_bpb(s0) || !has_boot_signature(s0) {
            0
        } else if s0[MBR_PART0 + PART_TYPE] == GPT_PROTECTIVE {
            match (o1, o2) {
                (Some(s1), Some(s2)) => if is_gpt_header(s1) && gpt_entry_used(s2) {
                    le32(s2, 32)
                } else {
                    0
                },
                (Some(s1), None) => 0,
                (None, _) => 0,
            }
        } else {
            mbr_start_from(s0, 0)
        },
    }
}

/// A read of a sector holding `s` either failed (`None`) or gave `s`.
pub open spec fn read_gave(o: Option<Seq<u8>>, s: Seq<u8>) -> bool {
    o is None || o == Some(s)
}

fn is_gpt_protective(blk: &[u8; 512]) -> (r: bool)
    ensures
        r == (!is_fat_bpb(blk@) && has_boot_signature(blk@) && blk@[MBR_PART0 + PART_TYPE] == GPT_PROTECTIVE),
{
    !looks_like_fat_bpb(blk) && blk[SIG_OFF] == 0x55 && blk[SIG_OFF + 1] == 0xAA && blk[MBR_PART0 + PART_TYPE]
        == GPT_PROTECTIVE
}

fn has_gpt_signature(blk: &[u8; 512]) -> (r: bool)
    ensures
        r == is_gpt_header(blk@),
{
    let r = blk[0] == 0x45 && blk[1] == 0x46 && blk[2] == 0x49 && blk[3] == 0x20 && blk[4] == 0x50 && blk[5]
        == 0x41 && blk[6] == 0x52 && blk[7] == 0x54;
    proof {
        let sig = seq![0x45u8, 0x46u8, 0x49u8, 0x20u8, 0x50u8, 0x41u8, 0x52u8, 0x54u8];
        if r {
            assert(blk@.take(8) =~= sig);
        } else if blk@.take(8) == sig {
            assert(blk@.take(8)[0] == sig[0] && blk@.take(8)[1] == sig[1] && blk@.take(8)[2] == sig[2]
                && blk@.take(8)[3] == sig[3] && blk@.take(8)[4] == sig[4] && blk@.take(8)[5] == sig[5]
                && blk@.take(8)[6] == sig[6] && blk@.take(8)[7] == sig[7]);
        }
    }
    r
}

/// The start of the first FAT volume, decided from the sectors the search
/// read: `b0` from LBA 0, `b1` the GPT header from LBA 1, `b2` the sector
/// the header names as its entry array; `None` for a read that failed.
pub fn volume_start_of(b0: Option<&[u8; 512]>, b1: Option<&[u8; 512]>, b2: Option<&[u8; 512]>) -> (r: u32)
    ensures
        r == start_from_reads(read_view(b0), read_view(b1), read_view(b2)),
{
    let s0 = match b0 {
        Some(b) => b,
        None => {
            return 0;
        },
    };
    if looks_like_fat_bpb(s0) {
        return 0;
    }
    if s0[SIG_OFF] != 0x55 || s0[SIG_OFF + 1] != 0xAA {
        return 0;
    }
    if s0[MBR_PART0 + PART_TYPE] == GPT_PROTECTIVE {
        match (b1, b2) {
            (Some(s1), Some(s2)) => {
                if has_gpt_signature(s1) && entry_used(s2) {
                    le_u32(s2, 32)
                } else {
                    0
                }
            },
            _ => 0,
        }
    } else {
        mbr_first_start(s0)
    }
}

/// Returns the starting LBA of the first FAT volume on `io`: the volume's
/// start when every read succeeds, otherwise what [`volume_start_of`]
/// decides from the reads that succeeded, which is 0 wherever a failed read
/// was needed.
pub fn first_partition_lba<B: BlockIo>(io: &mut B) -> (r: u32)
    ensures
        forall|l: u32| #[trigger] final(io).sector(l) == old(io).sector(l),
        forall|l: u32| old(io).answers(l) ==> #[trigger] final(io).answers(l),
        exists|o0: Option<Seq<u8>>, o1: Option<Seq<u8>>, o2: Option<Seq<u8>>|
            {
                &&& r == #[trigger] start_from_reads(o0, o1, o2)
                &&& read_gave(o0, old(io).sector(0))
                &&& read_gave(o1, old(io).sector(1))
                &&& read_gave(o2, old(io).sector(le32(old(io).sector(1), 72)))
            },
        r == 0 || r == disk_volume_start(*old(io)),
        volume_readable(*old(io)) ==> r == disk_volume_start(*old(io)),
{
    let mut b0 = [0u8; 512];
    if io.read_block(0, &mut b0).is_err() {
        return volume_start_of(None, None, None);
    }
    if is_gpt_protective(&b0) {
        let mut b1 = [0u8; 512];
        if io.read_block(1, &mut b1).is_err() {
            return volume_start_of(Some(&b0), None, None);
        }
        if !has_gpt_signature(&b1) {
            return volume_start_of(Some(&b0), Some(&b1), None);
        }
        let entries_lba = le_u32(&b1, 72);
        let mut b2 = [0u8; 512];
        if io.read_block(entries_lba, &mut b2).is_err() {
            return volume_start_of(Some(&b0), Some(&b1), None);
        }
        return volume_start_of(Some(&b0), Some(&b1), Some(&b2));
    }
    volume_start_of(Some(&b0), None, None)
}

} // verus!
