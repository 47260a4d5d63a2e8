//! PSID v1/v2 header parser with the v2 flags, and the play-call timing
//! they imply.
use vstd::prelude::*;
use crate::sid_player::psid::{be16, be32, has_psid_magic, speed_bit};

verus! {

/// The fields of a PSID header that the player uses.
#[derive(Debug, Clone, Copy, PartialEq)]
pub struct PsidHeader {
    pub version: u16,
    pub data_offset: u16,
    pub load_addr: u16,
    pub init_addr: u16,
    pub play_addr: u16,
    pub songs: u16,
    pub start_song: u16,
    pub speed: u32,
    /// The v2 `flags` field (offset 0x76); 0 for v1.
    pub flags: u16,
}

/// Why a buffer is not a playable PSID tune.
#[derive(Debug, PartialEq, Clone, Copy, Structural)]
pub enum PsidError {
    TooShort,
    BadMagic,
    UnsupportedVersion,
    BadOffsets,
}

/// The video standard a tune was composed for.
#[derive(Debug, Clone, Copy, PartialEq, Structural)]
pub enum Clock {
    Pal,
    Ntsc,
}

/// The SID chip model a tune declares.
#[derive(Debug, Clone, Copy, PartialEq, Structural)]
pub enum SidModel {
    Unknown,
    Mos6581,
    Mos8580,
    Both,
}

/// The label of a chip model.
pub open spec fn model_label(m: SidModel) -> &'static str {
    match m {
        SidModel::Mos6581 => "6581",
        SidModel::Mos8580 => "8580",
        SidModel::Both => "6581/8580",
        SidModel::Unknown => "SID?",
    }
}

impl SidModel {
    /// The short label for the metadata line.
    pub fn as_str(&self) -> (s: &'static str)
        ensures
            s == model_label(*self),
    {
        match self {
            SidModel::Mos6581 => "6581",
            SidModel::Mos8580 => "8580",
            SidModel::Both => "6581/8580",
            SidModel::Unknown => "SID?",
        }
    }
}

/// The C64 system clock in Hz, PAL.
pub const PHI2_PAL: u64 = 985_248;
/// The C64 system clock in Hz, NTSC.
pub const PHI2_NTSC: u64 = 1_022_727;
/// System-clock cycles per PAL video frame.
pub const FRAME_CYCLES_PAL: u64 = 19_656;
/// System-clock cycles per NTSC video frame.
pub const FRAME_CYCLES_NTSC: u64 = 17_095;
/// The CIA timer value assumed when a tune leaves it unprogrammed.
pub const CIA_DEFAULT_TIMER: u16 = 0x4025;

/// The play-timer divider, in `clk_hz` cycles, that reproduces the tune's
/// play-call rate: one call per video frame, or one per CIA timer underflow
/// (`phi2 / (timer + 1)`, the default timer when it is 0).
pub open spec fn play_period(clk_hz: u32, clock: Clock, cia: bool, cia_timer: u16) -> u32 {
    let phi2 = match clock {
        Clock::Ntsc => PHI2_NTSC,
        Clock::Pal => PHI2_PAL,
    };
    if cia {
        let timer = if cia_timer == 0 { CIA_DEFAULT_TIMER } else { cia_timer };
        (clk_hz * (timer + 1) / phi2 as int) as u32
    } else {
        let frame = match clock {
            Clock::Ntsc => FRAME_CYCLES_NTSC,
            Clock::Pal => FRAME_CYCLES_PAL,
        };
        (clk_hz * frame / phi2 as int) as u32
    }
}

/// The play-timer divider that reproduces the tune's play-call rate.
pub fn play_period_cycles(clk_hz: u32, clock: Clock, cia: bool, cia_timer: u16) -> (p: u32)
    ensures
        p == play_period(clk_hz, clock, cia, cia_timer),
{
    let phi2 = match clock {
        Clock::Ntsc => PHI2_NTSC,
        Clock::Pal => PHI2_PAL,
    };
    let clk = clk_hz as u64;
    let period = if cia {
        let timer = (if cia_timer == 0 {
            CIA_DEFAULT_TIMER
        } else {
            cia_timer
        }) as u64;
        assert(clk * (timer + 1) <= 0xFFFF_FFFF * 0x1_0000) by (nonlinear_arith)
            requires
                clk <= 0xFFFF_FFFF,
                timer + 1 <= 0x1_0000,
        ;
        clk * (timer + 1) / phi2
    } else {
        let frame = match clock {
            Clock::Ntsc => FRAME_CYCLES_NTSC,
            Clock::Pal => FRAME_CYCLES_PAL,
        };
        assert(clk * frame <= 0xFFFF_FFFF * 20_000) by (nonlinear_arith)
            requires
                clk <= 0xFFFF_FFFF,
                frame <= 20_000,
        ;
        clk * frame / phi2
    };
    period as u32
}

/// The header a buffer holds, or why it holds none.
pub open spec fn parse_spec(b: Seq<u8>) -> Result<PsidHeader, PsidError> {
    if b.len() < 0x76 {
        Err(PsidError::TooShort)
    } else if !has_psid_magic(b) {
        Err(PsidError::BadMagic)
    } else if be16(b, 4) != 1 && be16(b, 4) != 2 {
        Err(PsidError::UnsupportedVersion)
    } else {
        Ok(
            PsidHeader {
                version: be16(b, 4),
                data_offset: be16(b, 6),
                load_addr: be16(b, 8),
                init_addr: be16(b, 0x0A),
                play_addr: be16(b, 0x0C),
                songs: be16(b, 0x0E),
                start_song: be16(b, 0x10),
                speed: be32(b, 0x12),
                flags: if be16(b, 4) >= 2 { be16(b, 0x76) } else { 0 },
            },
        )
    }
}

/// A buffer that can be parsed without reading past its end: a version-2
/// header also carries the two flag bytes at 0x76.
pub open spec fn parse_in_bounds(b: Seq<u8>) -> bool {
    b.len() >= 0x76 && has_psid_magic(b) && be16(b, 4) == 2 ==> b.len() >= 0x78
}

/// Whether [`PsidHeader::parse`] can read `bytes` without running off its
/// end: a version-2 header needs its flag bytes at 0x76..0x78.
pub fn header_readable(bytes: &[u8]) -> (r: bool)
    ensures
        r == parse_in_bounds(bytes@),
{
    if bytes.len() >= 0x76 && bytes[0] == 0x50 && bytes[1] == 0x53 && bytes[2] == 0x49 && bytes[3] == 0x44
        && bytes[4] == 0 && bytes[5] == 2 {
        proof {
            assert(be16(bytes@, 4) == 2);
        }
        bytes.len() >= 0x78
    } else {
        proof {
            if bytes@.len() >= 0x76 && has_psid_magic(bytes@) {
                assert(be16(bytes@, 4) == bytes@[4] * 256 + bytes@[5]);
                assert(!(bytes@[4] == 0 && bytes@[5] == 2));
                assert(be16(bytes@, 4) != 2);
            }
        }
        true
    }
}

/// The tune's load address and payload, or `BadOffsets`.
pub open spec fn resolve_spec(h: PsidHeader, tune: Seq<u8>, len: int, mem_len: int) -> Result<(int, Seq<u8>), PsidError> {
    let off = h.data_offset as int;
    if len > tune.len() || off > len {
        Err(PsidError::BadOffsets)
    } else {
        let raw = tune.subrange(off, len);
        if h.load_addr == 0 && raw.len() < 2 {
            Err(PsidError::BadOffsets)
        } else {
            let load = if h.load_addr != 0 { h.load_addr as int } else { raw[0] + raw[1] * 256 };
            let payload = if h.load_addr == 0 { raw.subrange(2, raw.len() as int) } else { raw };
            if load + payload.len() > mem_len {
                Err(PsidError::BadOffsets)
            } else {
                Ok((load, payload))
            }
        }
    }
}

fn be16_at(b: &[u8], o: usize) -> (r: u16)
    requires
        o + 2 <= b@.len(),
    ensures
        r == be16(b@, o as int),
{
    (b[o] as u16) * 256 + b[o + 1] as u16
}

fn be32_at(b: &[u8], o: usize) -> (r: u32)
    requires
        o + 4 <= b@.len(),
    ensures
        r == be32(b@, o as int),
{
    (b[o] as u32) * 0x100_0000 + (b[o + 1] as u32) * 0x1_0000 + (b[o + 2] as u32) * 0x100 + b[o + 3] as u32
}

impl PsidHeader {
    /// Parses the header at the start of `bytes`.
    pub fn parse(bytes: &[u8]) -> (r: Result<PsidHeader, PsidError>)
        requires
            parse_in_bounds(bytes@),
        ensures
            r == parse_spec(bytes@),
    {
        if bytes.len() < 0x76 {
            return Err(PsidError::TooShort);
        }
        if bytes[0] != 0x50 || bytes[1] != 0x53 || bytes[2] != 0x49 || bytes[3] != 0x44 {
            return Err(PsidError::BadMagic);
        }
        let version = be16_at(bytes, 0x04);
        if version != 1 && version != 2 {
            return Err(PsidError::UnsupportedVersion);
        }
        Ok(
            PsidHeader {
                version,
                data_offset: be16_at(bytes, 0x06),
                load_addr: be16_at(bytes, 0x08),
                init_addr: be16_at(bytes, 0x0A),
                play_addr: be16_at(bytes, 0x0C),
                songs: be16_at(bytes, 0x0E),
                start_song: be16_at(bytes, 0x10),
                speed: be32_at(bytes, 0x12),
                flags: if version >= 2 {
                    be16_at(bytes, 0x76)
                } else {
                    0
                },
            },
        )
    }

    /// The video standard (flags bits 2-3): `10` is NTSC; unknown (`00`) and
    /// both (`11`) default to PAL.
    pub fn clock(&self) -> (c: Clock)
        ensures
            c == (if (self.flags >> 2u16) & 3 == 2 {
                Clock::Ntsc
            } else {
                Clock::Pal
            }),
    {
        if (self.flags >> 2u16) & 3 == 2 {
            Clock::Ntsc
        } else {
            Clock::Pal
        }
    }

    /// The chip model of the first SID (flags bits 4-5).
    pub fn model(&self) -> (m: SidModel)
        ensures
            m == (if (self.flags >> 4u16) & 3 == 1 {
                SidModel::Mos6581
            } else if (self.flags >> 4u16) & 3 == 2 {
                SidModel::Mos8580
            } else if (self.flags >> 4u16) & 3 == 3 {
                SidModel::Both
            } else {
                SidModel::Unknown
            }),
    {
        let m = (self.flags >> 4u16) & 3;
        if m == 1 {
            SidModel::Mos6581
        } else if m == 2 {
            SidModel::Mos8580
        } else if m == 3 {
            SidModel::Both
        } else {
            SidModel::Unknown
        }
    }

    /// Whether subtune `song_1based` is CIA-timed (its `speed` bit).
    pub fn is_cia(&self, song_1based: u16) -> (b: bool)
        ensures
            b == speed_bit(self.speed, song_1based),
    {
        let i = song_1based.saturating_sub(1);
        let i = if i > 31 {
            31
        } else {
            i
        };
        (self.speed >> (i as u32)) & 1 == 1
    }

    /// The load address: the header field, or the little-endian word at the
    /// start of the payload when the field is zero.
    pub fn effective_load_addr(&self, payload: &[u8]) -> (a: u16)
        requires
            self.load_addr == 0 ==> payload@.len() >= 2,
        ensures
            a == (if self.load_addr != 0 {
                self.load_addr
            } else {
                (payload@[0] + payload@[1] * 256) as u16
            }),
    {
        if self.load_addr != 0 {
            self.load_addr
        } else {
            payload[0] as u16 + (payload[1] as u16) * 256
        }
    }

    /// The tune's load address and payload, checking the untrusted
    /// `data_offset` and `load_addr` against the buffer length `len` and the
    /// memory size `mem_len`; never reads out of bounds.
    pub fn resolve_payload<'a>(&self, tune: &'a [u8], len: usize, mem_len: usize) -> (r: Result<(usize, &'a [u8]), PsidError>)
        ensures
            match resolve_spec(*self, tune@, len as int, mem_len as int) {
                Ok((a, p)) => r matches Ok((ra, rp)) && ra == a && rp@ == p,
                Err(e) => r matches Err(re) && re == e,
            },
    {
        let off = self.data_offset as usize;
        if len > tune.len() || off > len {
            return Err(PsidError::BadOffsets);
        }
        let payload_raw = &tune[off..len];
        if self.load_addr == 0 && payload_raw.len() < 2 {
            return Err(PsidError::BadOffsets);
        }
        let load_addr = self.effective_load_addr(payload_raw) as usize;
        let payload = if self.load_addr == 0 {
            &payload_raw[2..payload_raw.len()]
        } else {
            payload_raw
        };
        if load_addr > mem_len || payload.len() > mem_len - load_addr {
            return Err(PsidError::BadOffsets);
        }
        Ok((load_addr, payload))
    }
}

/// The SID clock standard the Clock menu row selects: 1 forces PAL, 2
/// forces NTSC, anything else follows the tune's header.
pub fn effective_clock(clock_sel: usize, hdr: &PsidHeader) -> (c: Clock)
    ensures
        c == (if clock_sel == 1 {
            Clock::Pal
        } else if clock_sel == 2 {
            Clock::Ntsc
        } else if (hdr.flags >> 2u16) & 3 == 2 {
            Clock::Ntsc
        } else {
            Clock::Pal
        }),
{
    match clock_sel {
        1 => Clock::Pal,
        2 => Clock::Ntsc,
        _ => hdr.clock(),
    }
}

/// Law: a buffer holds a header exactly when it has at least 0x76 bytes,
/// starts with `PSID` and carries version 1 or 2 in bytes 4 and 5; each
/// field of the header is then the big-endian word at its fixed place:
/// version at bytes 4-5, data offset 6-7, load address 8-9, init 10-11,
/// play 12-13, songs 14-15, start song 16-17, the speed flags the 32-bit
/// word at 18-21, and for version 2 the flags at 0x76-0x77 (0 for
/// version 1).
pub proof fn lemma_parse_reads_fixed_offsets(b: Seq<u8>)
    ensures
        parse_spec(b) is Ok <==> {
            &&& b.len() >= 0x76
            &&& b[0] == 0x50 && b[1] == 0x53 && b[2] == 0x49 && b[3] == 0x44
            &&& b[4] == 0 && (b[5] == 1 || b[5] == 2)
        },
        parse_spec(b) matches Ok(h) ==> {
            &&& h.version == b[4] * 256 + b[5]
            &&& h.data_offset == b[6] * 256 + b[7]
            &&& h.load_addr == b[8] * 256 + b[9]
            &&& h.init_addr == b[10] * 256 + b[11]
            &&& h.play_addr == b[12] * 256 + b[13]
            &&& h.songs == b[14] * 256 + b[15]
            &&& h.start_song == b[16] * 256 + b[17]
            &&& h.speed == b[18] * 0x100_0000 + b[19] * 0x1_0000 + b[20] * 0x100 + b[21]
            &&& h.flags == (if b[5] == 2 { b[0x76] * 256 + b[0x77] } else { 0 })
        },
{
    if b.len() >= 0x76 {
        assert forall|o: int| 0 <= o && o + 1 < b.len() implies #[trigger] be16(b, o) == b[o] * 256 + b[o + 1] by {
            assert(0 <= b[o] * 256 + b[o + 1] <= 0xFFFF);
        }
        assert(0 <= b[18] * 0x100_0000 + b[19] * 0x1_0000 + b[20] * 0x100 + b[21] <= 0xFFFF_FFFF);
        assert(be16(b, 4) == b[4] * 256 + b[5]);
        assert(be16(b, 6) == b[6] * 256 + b[7]);
        assert(be16(b, 8) == b[8] * 256 + b[9]);
        assert(be16(b, 10) == b[10] * 256 + b[11]);
        assert(be16(b, 12) == b[12] * 256 + b[13]);
        assert(be16(b, 14) == b[14] * 256 + b[15]);
        assert(be16(b, 16) == b[16] * 256 + b[17]);
        if b.len() >= 0x78 {
            assert(be16(b, 0x76) == b[0x76] * 256 + b[0x77]);
        }
    }
}

} // verus!
