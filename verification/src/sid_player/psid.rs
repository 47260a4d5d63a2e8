//! PSID v1/v2 header parser.
use vstd::prelude::*;

verus! {

/// The fields of a PSID header that the player uses.
#[derive(Debug, Clone, Copy, PartialEq)]
pub struct PsidHeader {
    pub version: u16,
    pub data_offset: u16,
    pub load_addr: u16,
    pub init_addr: u16,
    pub play_addr: u16,
    pub songs: u16,
    pub start_song: u16,
    pub speed: u32,
}

/// Why a buffer is not a playable PSID header.
#[derive(Debug, PartialEq, Clone, Copy, Structural)]
pub enum PsidError {
    TooShort,
    BadMagic,
    UnsupportedVersion,
}

/// The big-endian 16-bit word at `o`.
pub open spec fn be16(b: Seq<u8>, o: int) -> u16 {
    (b[o] * 256 + b[o + 1]) as u16
}

/// The big-endian 32-bit word at `o`.
pub open spec fn be32(b: Seq<u8>, o: int) -> u32 {
    (b[o] * 0x100_0000 + b[o + 1] * 0x1_0000 + b[o + 2] * 0x100 + b[o + 3]) as u32
}

/// The magic `PSID`.
pub open spec fn has_psid_magic(b: Seq<u8>) -> bool {
    b[0] == 0x50 && b[1] == 0x53 && b[2] == 0x49 && b[3] == 0x44
}

/// The header a buffer holds, or why it holds none.
pub open spec fn parse_spec(b: Seq<u8>) -> Result<PsidHeader, PsidError> {
    if b.len() < 0x76 {
        Err(PsidError::TooShort)
    } else if !has_psid_magic(b) {
        Err(PsidError::BadMagic)
    } else if be16(b, 4) != 1 && be16(b, 4) != 2 {
        Err(PsidError::UnsupportedVersion)
    } else {
        Ok(
            PsidHeader {
                version: be16(b, 4),
                data_offset: be16(b, 6),
                load_addr: be16(b, 8),
                init_addr: be16(b, 0x0A),
                play_addr: be16(b, 0x0C),
                songs: be16(b, 0x0E),
                start_song: be16(b, 0x10),
                speed: be32(b, 0x12),
            },
        )
    }
}

/// Bit `song - 1` of `speed`, the song index clamped to `0..=31`.
pub open spec fn speed_bit(speed: u32, song_1based: u16) -> bool {
    let i = if song_1based == 0 { 0 } else if song_1based - 1 > 31 { 31 } else { song_1based - 1 };
    (speed >> (i as u32)) & 1 == 1
}

fn be16_at(b: &[u8], o: usize) -> (r: u16)
    requires
        o + 2 <= b@.len(),
    ensures
        r == be16(b@, o as int),
{
    (b[o] as u16) * 256 + b[o + 1] as u16
}

fn be32_at(b: &[u8], o: usize) -> (r: u32)
    requires
        o + 4 <= b@.len(),
    ensures
        r == be32(b@, o as int),
{
    (b[o] as u32) * 0x100_0000 + (b[o + 1] as u32) * 0x1_0000 + (b[o + 2] as u32) * 0x100 + b[o + 3] as u32
}

impl PsidHeader {
    /// Parses the header at the start of `bytes`.
    pub fn parse(bytes: &[u8]) -> (r: Result<PsidHeader, PsidError>)
        ensures
            r == parse_spec(bytes@),
    {
        if bytes.len() < 0x76 {
            return Err(PsidError::TooShort);
        }
        if bytes[0] != 0x50 || bytes[1] != 0x53 || bytes[2] != 0x49 || bytes[3] != 0x44 {
            return Err(PsidError::BadMagic);
        }
        let version = be16_at(bytes, 0x04);
        if version != 1 && version != 2 {
            return Err(PsidError::UnsupportedVersion);
        }
        Ok(
            PsidHeader {
                version,
                data_offset: be16_at(bytes, 0x06),
                load_addr: be16_at(bytes, 0x08),
                init_addr: be16_at(bytes, 0x0A),
                play_addr: be16_at(bytes, 0x0C),
                songs: be16_at(bytes, 0x0E),
                start_song: be16_at(bytes, 0x10),
                speed: be32_at(bytes, 0x12),
            },
        )
    }

    /// Whether subtune `song_1based` plays at 60 Hz (its `speed` bit).
    pub fn is_ntsc(&self, song_1based: u16) -> (b: bool)
        ensures
            b == speed_bit(self.speed, song_1based),
    {
        let i = song_1based.saturating_sub(1);
        let i = if i > 31 {
            31
        } else {
            i
        };
        (self.speed >> (i as u32)) & 1 == 1
    }

    /// The load address: the header field, or the little-endian word at the
    /// start of the payload when the field is zero.
    pub fn effective_load_addr(&self, payload: &[u8]) -> (a: u16)
        requires
            self.load_addr == 0 ==> payload@.len() >= 2,
        ensures
            a == (if self.load_addr != 0 {
                self.load_addr
            } else {
                (payload@[0] + payload@[1] * 256) as u16
            }),
    {
        if self.load_addr != 0 {
            self.load_addr
        } else {
            payload[0] as u16 + (payload[1] as u16) * 256
        }
    }
}

/// Law: a buffer holds a header exactly when it has at least 0x76 bytes,
/// starts with `PSID` and carries version 1 or 2 in bytes 4 and 5; each
/// field of the header is then the big-endian word at its fixed place:
/// version at bytes 4-5, data offset 6-7, load address 8-9, init 10-11,
/// play 12-13, songs 14-15, start song 16-17, and the speed flags the
/// 32-bit word at 18-21.
pub proof fn lemma_parse_reads_fixed_offsets(b: Seq<u8>)
    ensures
        parse_spec(b) is Ok <==> {
            &&& b.len() >= 0x76
            &&& b[0] == 0x50 && b[1] == 0x53 && b[2] == 0x49 && b[3] == 0x44
            &&& b[4] == 0 && (b[5] == 1 || b[5] == 2)
        },
        parse_spec(b) matches Ok(h) ==> {
            &&& h.version == b[4] * 256 + b[5]
            &&& h.data_offset == b[6] * 256 + b[7]
            &&& h.load_addr == b[8] * 256 + b[9]
            &&& h.init_addr == b[10] * 256 + b[11]
            &&& h.play_addr == b[12] * 256 + b[13]
            &&& h.songs == b[14] * 256 + b[15]
            &&& h.start_song == b[16] * 256 + b[17]
            &&& h.speed == b[18] * 0x100_0000 + b[19] * 0x1_0000 + b[20] * 0x100 + b[21]
        },
{
    if b.len() >= 0x76 {
        assert forall|o: int| 0 <= o && o + 1 < b.len() implies #[trigger] be16(b, o) == b[o] * 256 + b[o + 1] by {
            assert(0 <= b[o] * 256 + b[o + 1] <= 0xFFFF);
        }
        assert(0 <= b[18] * 0x100_0000 + b[19] * 0x1_0000 + b[20] * 0x100 + b[21] <= 0xFFFF_FFFF);
        assert(be16(b, 4) == b[4] * 256 + b[5]);
        assert(be16(b, 6) == b[6] * 256 + b[7]);
        assert(be16(b, 8) == b[8] * 256 + b[9]);
        assert(be16(b, 10) == b[10] * 256 + b[11]);
        assert(be16(b, 12) == b[12] * 256 + b[13]);
        assert(be16(b, 14) == b[14] * 256 + b[15]);
        assert(be16(b, 16) == b[16] * 256 + b[17]);
    }
}

} // verus!
