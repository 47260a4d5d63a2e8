//! Editable Lead-engine patch parameters: where each one lives in the patch
//! body, how it is packed into bytes, and which bytes an edit rewrites.
use vstd::prelude::*;
use crate::outside::{edit_list_items, edit_list_new, edit_list_push};

verus! {

/// How a parameter is packed into the patch body.
#[derive(Clone, Copy, PartialEq, Eq, Debug, Structural)]
pub enum Enc {
    /// Sub-byte field: `(byte >> shift) & mask`.
    Byte { shift: u8, mask: u8 },
    /// 12-bit little-endian pair: full low byte and high byte bits 3:0.
    Wide12,
    /// Filter cutoff: low byte bits 6:0 and high byte bits 3:0 shifted by 7;
    /// low-byte bit 7 is the interpolation flag and is preserved.
    Cutoff11,
}

/// One editable parameter of the patch body.
pub struct ParamDesc {
    pub label: &'static str,
    pub addr: u16,
    pub mirror: Option<u16>,
    pub enc: Enc,
    pub max: u16,
    pub step: u16,
}

/// Whether the encoding reads a second byte at `addr + 1`.
pub open spec fn is_wide(enc: Enc) -> bool {
    !(enc is Byte)
}

/// A descriptor whose field, and the mirror an edit also writes, can be
/// addressed without overflow.
pub open spec fn desc_in_range(d: ParamDesc) -> bool {
    &&& read_in_range(d)
    &&& (is_wide(d.enc) && d.mirror is Some ==> d.mirror->0 < 0xFFFF)
}

/// The field itself can be read: a byte field's shift is below 8, and a
/// two-byte field's second byte has an address.
pub open spec fn read_in_range(d: ParamDesc) -> bool {
    &&& (d.enc matches Enc::Byte { shift, mask } ==> shift < 8)
    &&& (is_wide(d.enc) ==> d.addr < 0xFFFF)
}

/// The largest value a field of this encoding can hold.
pub open spec fn field_capacity(enc: Enc) -> int {
    match enc {
        Enc::Byte { shift, mask } => mask as int,
        Enc::Wide12 => 0xFFF,
        Enc::Cutoff11 => 0x7FF,
    }
}

/// A mask made of contiguous low bits (`0b0..01..1`).
pub open spec fn is_low_mask(mask: u8) -> bool {
    (mask as u16) & (((mask as u16) + 1) as u16) == 0
}

/// A descriptor whose maximum fits its field and whose field fits its byte.
pub open spec fn desc_fits(d: ParamDesc) -> bool {
    &&& desc_in_range(d)
    &&& (d.enc matches Enc::Byte { shift, mask } ==> is_low_mask(mask) && mask <= (0xFFu8 >> shift))
    &&& d.max <= field_capacity(d.enc)
}

/// The parameter value held by the low byte `lo` and the following byte `hi`.
pub open spec fn field_value(enc: Enc, lo: u8, hi: u8) -> u16 {
    match enc {
        Enc::Byte { shift, mask } => ((lo >> shift) & mask) as u16,
        Enc::Wide12 => (lo as u16) | (((hi & 0x0F) as u16) << 8u16),
        Enc::Cutoff11 => ((lo & 0x7F) as u16) | (((hi & 0x0F) as u16) << 7u16),
    }
}

/// `prev` with the field `(shift, mask)` replaced by the low bits of `v`.
pub open spec fn set_field(prev: u8, shift: u8, mask: u8, v: u16) -> u8 {
    (prev & !(mask << shift)) | (((v as u8) & mask) << shift)
}

/// The writes that store `v` in the block at `a`, whose current bytes are
/// `lo` at `a` and `hi` at `a + 1`.
pub open spec fn block_writes(enc: Enc, a: u16, v: u16, lo: u8, hi: u8) -> Seq<(u16, u8)> {
    match enc {
        Enc::Byte { shift, mask } => seq![(a, set_field(lo, shift, mask, v))],
        Enc::Wide12 => seq![
            (a, (v & 0xFF) as u8),
            ((a + 1) as u16, (hi & 0xF0) | (((v >> 8u16) as u8) & 0x0F)),
        ],
        Enc::Cutoff11 => seq![
            (a, (lo & 0x80) | ((v as u8) & 0x7F)),
            ((a + 1) as u16, (hi & 0xF0) | (((v >> 7u16) as u8) & 0x0F)),
        ],
    }
}

/// `body` may answer `b` when asked for the byte at `a`.
pub open spec fn reads<F: Fn(u16) -> u8>(body: F, a: u16, b: u8) -> bool {
    call_ensures(body, (a,), b)
}

/// The bytes `lo`, `hi` are what `body` gave for the reads a value lookup makes.
pub open spec fn value_reads<F: Fn(u16) -> u8>(enc: Enc, body: F, a: u16, lo: u8, hi: u8) -> bool {
    &&& reads(body, a, lo)
    &&& (is_wide(enc) ==> reads(body, (a + 1) as u16, hi))
}

/// The bytes `lo`, `hi` are what `body` gave for the reads an edit makes:
/// a byte field reads its byte, a 12-bit pair only its high byte, a cutoff both.
pub open spec fn edit_reads<F: Fn(u16) -> u8>(enc: Enc, body: F, a: u16, lo: u8, hi: u8) -> bool {
    match enc {
        Enc::Byte { .. } => reads(body, a, lo),
        Enc::Wide12 => reads(body, (a + 1) as u16, hi),
        Enc::Cutoff11 => reads(body, a, lo) && reads(body, (a + 1) as u16, hi),
    }
}

/// A value clamped to the parameter's maximum.
pub open spec fn clamp_to(value: u16, max: u16) -> u16 {
    if value <= max {
        value
    } else {
        max
    }
}

/// All writes of an edit: the primary block, then the mirror block if any.
pub open spec fn edit_writes(d: ParamDesc, v: u16, lo: u8, hi: u8, mlo: u8, mhi: u8) -> Seq<(u16, u8)> {
    block_writes(d.enc, d.addr, v, lo, hi) + match d.mirror {
        Some(m) => block_writes(d.enc, m, v, mlo, mhi),
        None => Seq::empty(),
    }
}

/// A sub-byte parameter edited one step at a time.
pub open spec fn byte_row(label: &'static str, addr: u16, mirror: Option<u16>, shift: u8, mask: u8, max: u16) -> ParamDesc {
    ParamDesc { label, addr, mirror, enc: Enc::Byte { shift, mask }, max, step: 1 }
}

/// A left-SID voice parameter mirrored onto the same voice of the right SID.
pub open spec fn osc_row(label: &'static str, addr: u16, shift: u8, mask: u8, max: u16) -> ParamDesc {
    byte_row(label, addr, Some((addr + 0x30) as u16), shift, mask, max)
}

/// A 12-bit or cutoff parameter edited in steps of 16.
pub open spec fn wide_row(label: &'static str, addr: u16, mirror: u16, enc: Enc, max: u16) -> ParamDesc {
    ParamDesc { label, addr, mirror: Some(mirror), enc, max, step: 16 }
}

/// The Lead-engine parameters offered for editing, in menu order.
pub open spec fn lead_table() -> Seq<ParamDesc> {
    seq![
        byte_row("Volume", 0x52, None, 0, 0x0F, 15),
        byte_row("Detune", 0x51, None, 0, 0xFF, 255),
        byte_row("Phase", 0x53, None, 0, 0xFF, 255),
        wide_row("Cutoff", 0x55, 0x5B, Enc::Cutoff11, 2047),
        byte_row("Reso", 0x57, Some(0x5Du16), 4, 0x0F, 15),
        byte_row("FltMode", 0x54, Some(0x5Au16), 4, 0x0F, 15),
        byte_row("FltChn", 0x54, Some(0x5Au16), 0, 0x0F, 15),
        osc_row("O1 Wave", 0x61, 0, 0xFF, 255),
        osc_row("O1 Atk", 0x62, 4, 0x0F, 15),
        osc_row("O1 Dec", 0x62, 0, 0x0F, 15),
        osc_row("O1 Sus", 0x63, 4, 0x0F, 15),
        osc_row("O1 Rel", 0x63, 0, 0x0F, 15),
        wide_row("O1 PW", 0x64, 0x94, Enc::Wide12, 4095),
        osc_row("O1 Porta", 0x6B, 0, 0xFF, 255),
        osc_row("O2 Wave", 0x71, 0, 0xFF, 255),
        osc_row("O2 Atk", 0x72, 4, 0x0F, 15),
        osc_row("O2 Dec", 0x72, 0, 0x0F, 15),
        osc_row("O2 Sus", 0x73, 4, 0x0F, 15),
        osc_row("O2 Rel", 0x73, 0, 0x0F, 15),
        wide_row("O2 PW", 0x74, 0xA4, Enc::Wide12, 4095),
        osc_row("O2 Porta", 0x7B, 0, 0xFF, 255),
        osc_row("O3 Wave", 0x81, 0, 0xFF, 255),
        osc_row("O3 Atk", 0x82, 4, 0x0F, 15),
        osc_row("O3 Dec", 0x82, 0, 0x0F, 15),
        osc_row("O3 Sus", 0x83, 4, 0x0F, 15),
        osc_row("O3 Rel", 0x83, 0, 0x0F, 15),
        wide_row("O3 PW", 0x84, 0xB4, Enc::Wide12, 4095),
        osc_row("O3 Porta", 0x8B, 0, 0xFF, 255),
        byte_row("L1 Rate", 0xC2, None, 0, 0xFF, 255),
        byte_row("L1 Depth", 0xC1, None, 0, 0xFF, 255),
        byte_row("L2 Rate", 0xC7, None, 0, 0xFF, 255),
        byte_row("L2 Depth", 0xC6, None, 0, 0xFF, 255),
    ]
}

/// Every byte a descriptor touches lies in the Lead regions of the patch
/// (globals, filters, voices and LFOs: `0x50..0xDE`), its second byte inside
/// the 512-byte body, and its step and maximum are at least one.
pub open spec fn desc_in_lead_regions(d: ParamDesc) -> bool {
    &&& 0x50 <= d.addr < 0xDE
    &&& (is_wide(d.enc) ==> d.addr + 1 < 512)
    &&& (d.mirror matches Some(m) ==> 0x50 <= m < 0xDE && (is_wide(d.enc) ==> m + 1 < 512))
    &&& d.step >= 1
    &&& d.max >= 1
}

/// Voice rows mirror the same voice of the right SID (`+0x30`); filter rows
/// mirror the right filter block (`+6`).
pub open spec fn desc_mirrors_right_sid(d: ParamDesc) -> bool {
    &&& (0x60 <= d.addr < 0xC0 ==> d.mirror == Some((d.addr + 0x30) as u16))
    &&& (0x54 <= d.addr < 0x60 ==> d.mirror == Some((d.addr + 6) as u16))
}

fn byte(label: &'static str, addr: u16, mirror: Option<u16>, shift: u8, mask: u8, max: u16) -> (d: ParamDesc)
    ensures
        d == byte_row(label, addr, mirror, shift, mask, max),
{
    ParamDesc { label, addr, mirror, enc: Enc::Byte { shift, mask }, max, step: 1 }
}

fn osc(label: &'static str, addr: u16, shift: u8, mask: u8, max: u16) -> (d: ParamDesc)
    requires
        addr + 0x30 <= u16::MAX,
    ensures
        d == osc_row(label, addr, shift, mask, max),
{
    byte(label, addr, Some(addr + 0x30), shift, mask, max)
}

fn wide(label: &'static str, addr: u16, mirror: u16, enc: Enc, max: u16) -> (d: ParamDesc)
    ensures
        d == wide_row(label, addr, mirror, enc, max),
{
    ParamDesc { label, addr, mirror: Some(mirror), enc, max, step: 16 }
}

/// A row that can be offered for editing.
pub open spec fn row_ok(d: ParamDesc) -> bool {
    desc_fits(d) && desc_in_lead_regions(d) && desc_mirrors_right_sid(d)
}

fn push_row(t: &mut Vec<ParamDesc>, d: ParamDesc)
    requires
        row_ok(d),
        forall|i: int| 0 <= i < old(t).len() ==> #[trigger] row_ok(old(t)@[i]),
    ensures
        final(t)@ == old(t)@.push(d),
        forall|i: int| 0 <= i < final(t).len() ==> #[trigger] row_ok(final(t)@[i]),
{
    t.push(d);
}

/// The Lead-engine parameter table.
pub fn lead_params() -> (t: Vec<ParamDesc>)
    ensures
        t@ == lead_table(),
        t.len() == 32,
        forall|i: int| 0 <= i < t.len() ==> #[trigger] row_ok(t@[i]),
{
    proof {
        assert(0xFFu8 >> 0u8 == 0xFFu8 && 0xFFu8 >> 4u8 == 0x0Fu8) by (bit_vector);
        assert(is_low_mask(0x0Fu8) && is_low_mask(0xFFu8)) by (bit_vector);
    }
    let mut t: Vec<ParamDesc> = Vec::new();
    push_row(&mut t, byte("Volume", 0x52, None, 0, 0x0F, 15));
    push_row(&mut t, byte("Detune", 0x51, None, 0, 0xFF, 255));
    push_row(&mut t, byte("Phase", 0x53, None, 0, 0xFF, 255));
    push_row(&mut t, wide("Cutoff", 0x55, 0x5B, Enc::Cutoff11, 2047));
    push_row(&mut t, byte("Reso", 0x57, Some(0x5D), 4, 0x0F, 15));
    push_row(&mut t, byte("FltMode", 0x54, Some(0x5A), 4, 0x0F, 15));
    push_row(&mut t, byte("FltChn", 0x54, Some(0x5A), 0, 0x0F, 15));
    push_row(&mut t, osc("O1 Wave", 0x61, 0, 0xFF, 255));
    push_row(&mut t, osc("O1 Atk", 0x62, 4, 0x0F, 15));
    push_row(&mut t, osc("O1 Dec", 0x62, 0, 0x0F, 15));
    push_row(&mut t, osc("O1 Sus", 0x63, 4, 0x0F, 15));
    push_row(&mut t, osc("O1 Rel", 0x63, 0, 0x0F, 15));
    push_row(&mut t, wide("O1 PW", 0x64, 0x94, Enc::Wide12, 4095));
    push_row(&mut t, osc("O1 Porta", 0x6B, 0, 0xFF, 255));
    push_row(&mut t, osc("O2 Wave", 0x71, 0, 0xFF, 255));
    push_row(&mut t, osc("O2 Atk", 0x72, 4, 0x0F, 15));
    push_row(&mut t, osc("O2 Dec", 0x72, 0, 0x0F, 15));
    push_row(&mut t, osc("O2 Sus", 0x73, 4, 0x0F, 15));
    push_row(&mut t, osc("O2 Rel", 0x73, 0, 0x0F, 15));
    push_row(&mut t, wide("O2 PW", 0x74, 0xA4, Enc::Wide12, 4095));
    push_row(&mut t, osc("O2 Porta", 0x7B, 0, 0xFF, 255));
    push_row(&mut t, osc("O3 Wave", 0x81, 0, 0xFF, 255));
    push_row(&mut t, osc("O3 Atk", 0x82, 4, 0x0F, 15));
    push_row(&mut t, osc("O3 Dec", 0x82, 0, 0x0F, 15));
    push_row(&mut t, osc("O3 Sus", 0x83, 4, 0x0F, 15));
    push_row(&mut t, osc("O3 Rel", 0x83, 0, 0x0F, 15));
    push_row(&mut t, wide("O3 PW", 0x84, 0xB4, Enc::Wide12, 4095));
    push_row(&mut t, osc("O3 Porta", 0x8B, 0, 0xFF, 255));
    push_row(&mut t, byte("L1 Rate", 0xC2, None, 0, 0xFF, 255));
    push_row(&mut t, byte("L1 Depth", 0xC1, None, 0, 0xFF, 255));
    push_row(&mut t, byte("L2 Rate", 0xC7, None, 0, 0xFF, 255));
    push_row(&mut t, byte("L2 Depth", 0xC6, None, 0, 0xFF, 255));
    proof {
        assert(t@ =~= lead_table());
    }
    t
}

/// Reads the parameter `d` from a patch body given as a byte lookup.
pub fn read_value<F: Fn(u16) -> u8>(d: &ParamDesc, body: F) -> (r: u16)
    requires
        read_in_range(*d),
        forall|a: u16| call_requires(body, (a,)),
    ensures
        exists|lo: u8, hi: u8| value_reads(d.enc, body, d.addr, lo, hi) && r == field_value(d.enc, lo, hi),
{
    match d.enc {
        Enc::Byte { shift, mask } => {
            let lo = body(d.addr);
            let r = ((lo >> shift) & mask) as u16;
            assert(value_reads(d.enc, body, d.addr, lo, 0u8) && r == field_value(d.enc, lo, 0u8));
            r
        },
        Enc::Wide12 => {
            let lo = body(d.addr);
            let hi = body(d.addr + 1);
            let r = (lo as u16) | (((hi & 0x0F) as u16) << 8u16);
            assert(value_reads(d.enc, body, d.addr, lo, hi) && r == field_value(d.enc, lo, hi));
            r
        },
        Enc::Cutoff11 => {
            let lo = body(d.addr);
            let hi = body(d.addr + 1);
            let r = ((lo & 0x7F) as u16) | (((hi & 0x0F) as u16) << 7u16);
            assert(value_reads(d.enc, body, d.addr, lo, hi) && r == field_value(d.enc, lo, hi));
            r
        },
    }
}

fn push_block<F: Fn(u16) -> u8>(
    enc: Enc,
    a: u16,
    v: u16,
    body: &F,
    ops: &mut heapless::Vec<(u16, u8), 4>,
) -> (read: Ghost<(u8, u8)>)
    requires
        forall|x: u16| call_requires(*body, (x,)),
        enc matches Enc::Byte { shift, mask } ==> shift < 8,
        is_wide(enc) ==> a < 0xFFFF,
        edit_list_items(*old(ops)).len() + 2 <= 4,
    ensures
        edit_reads(enc, *body, a, read@.0, read@.1),
        edit_list_items(*final(ops)) == edit_list_items(*old(ops)) + block_writes(enc, a, v, read@.0, read@.1),
{
    let ghost items0 = edit_list_items(*ops);
    match enc {
        Enc::Byte { shift, mask } => {
            let cur = body(a);
            let b = (cur & !(mask << shift)) | (((v as u8) & mask) << shift);
            let _ = edit_list_push(ops, (a, b));
            assert(edit_list_items(*ops) =~= items0 + block_writes(enc, a, v, cur, 0u8));
            Ghost((cur, 0u8))
        },
        Enc::Wide12 => {
            let _ = edit_list_push(ops, (a, (v & 0xFF) as u8));
            let old_h = body(a + 1);
            let _ = edit_list_push(ops, (a + 1, (old_h & 0xF0) | ((v >> 8u16) as u8 & 0x0F)));
            assert(edit_list_items(*ops) =~= items0 + block_writes(enc, a, v, 0u8, old_h));
            Ghost((0u8, old_h))
        },
        Enc::Cutoff11 => {
            let old_l = body(a);
            let _ = edit_list_push(ops, (a, (old_l & 0x80) | (v as u8 & 0x7F)));
            let old_h = body(a + 1);
            let _ = edit_list_push(ops, (a + 1, (old_h & 0xF0) | ((v >> 7u16) as u8 & 0x0F)));
            assert(edit_list_items(*ops) =~= items0 + block_writes(enc, a, v, old_l, old_h));
            Ghost((old_l, old_h))
        },
    }
}

/// The `(address, new byte)` writes that store `value`, clamped to the
/// parameter's maximum, into the primary block and then the mirror block.
/// Bits outside the parameter's field are carried over from `body`.
pub fn write_ops<F: Fn(u16) -> u8>(d: &ParamDesc, value: u16, body: F) -> (ops: heapless::Vec<(u16, u8), 4>)
    requires
        desc_in_range(*d),
        forall|a: u16| call_requires(body, (a,)),
    ensures
        exists|lo: u8, hi: u8, mlo: u8, mhi: u8|
            {
                &&& edit_reads(d.enc, body, d.addr, lo, hi)
                &&& (d.mirror matches Some(m) ==> edit_reads(d.enc, body, m, mlo, mhi))
                &&& edit_list_items(ops) == edit_writes(*d, clamp_to(value, d.max), lo, hi, mlo, mhi)
            },
{
    let v = if value <= d.max {
        value
    } else {
        d.max
    };
    let mut ops = edit_list_new();
    let r1 = push_block(d.enc, d.addr, v, &body, &mut ops);
    let ghost mut mirror_read: (u8, u8) = (0u8, 0u8);
    if let Some(m) = d.mirror {
        let r2 = push_block(d.enc, m, v, &body, &mut ops);
        proof {
            mirror_read = r2@;
        }
    }
    proof {
        let (lo, hi) = r1@;
        let (mlo, mhi) = mirror_read;
        assert(edit_list_items(ops) =~= edit_writes(*d, v, lo, hi, mlo, mhi));
        assert({
            &&& edit_reads(d.enc, body, d.addr, lo, hi)
            &&& (d.mirror matches Some(m) ==> edit_reads(d.enc, body, m, mlo, mhi))
            &&& edit_list_items(ops) == edit_writes(*d, clamp_to(value, d.max), lo, hi, mlo, mhi)
        });
    }
    ops
}

/// The value a block holds after an edit, read back from the written bytes
/// (a byte field leaves `hi` untouched).
pub open spec fn value_after_edit(enc: Enc, a: u16, v: u16, lo: u8, hi: u8) -> u16 {
    let w = block_writes(enc, a, v, lo, hi);
    field_value(enc, w[0].1, if is_wide(enc) { w[1].1 } else { hi })
}

/// Reading a block back after an edit gives the edited value clamped to the
/// parameter's maximum, whatever the block held before.
pub proof fn lemma_edit_reads_back(d: ParamDesc, value: u16, lo: u8, hi: u8)
    requires
        desc_fits(d),
    ensures
        value_after_edit(d.enc, d.addr, clamp_to(value, d.max), lo, hi) == clamp_to(value, d.max),
{
    let v = clamp_to(value, d.max);
    match d.enc {
        Enc::Byte { shift, mask } => {
            assert((((((lo & !(mask << shift)) | (((v as u8) & mask) << shift)) >> shift) & mask) as u16) == v)
                by (bit_vector)
                requires
                    shift < 8,
                    (mask as u16) & (((mask as u16) + 1) as u16) == 0,
                    mask <= (0xFFu8 >> shift),
                    v <= mask as u16,
            ;
        },
        Enc::Wide12 => {
            assert(((((v & 0xFF) as u8) as u16) | (((((hi & 0xF0) | (((v >> 8u16) as u8) & 0x0F)) & 0x0F) as u16) << 8u16)) == v)
                by (bit_vector)
                requires
                    v <= 0xFFF,
            ;
        },
        Enc::Cutoff11 => {
            assert((((((lo & 0x80) | ((v as u8) & 0x7F)) & 0x7F) as u16) | (((((hi & 0xF0) | (((v >> 7u16) as u8) & 0x0F)) & 0x0F) as u16) << 7u16)) == v)
                by (bit_vector)
                requires
                    v <= 0x7FF,
            ;
        },
    }
}

/// An edit leaves every bit outside the parameter's field as it was: the
/// other half of a shared byte, the high nibble above a 12-bit or cutoff
/// value, and the cutoff's interpolation flag.
pub proof fn lemma_edit_preserves_other_bits(enc: Enc, a: u16, v: u16, lo: u8, hi: u8)
    requires
        enc matches Enc::Byte { shift, mask } ==> shift < 8,
    ensures
        ({
            let w = block_writes(enc, a, v, lo, hi);
            &&& (enc matches Enc::Byte { shift, mask } ==> w[0].1 & !(mask << shift) == lo & !(mask << shift))
            &&& (is_wide(enc) ==> w[1].1 & 0xF0 == hi & 0xF0)
            &&& (enc is Cutoff11 ==> w[0].1 & 0x80 == lo & 0x80)
        }),
{
    match enc {
        Enc::Byte { shift, mask } => {
            assert(((lo & !(mask << shift)) | (((v as u8) & mask) << shift)) & !(mask << shift) == lo & !(mask << shift))
                by (bit_vector)
                requires
                    shift < 8,
            ;
        },
        Enc::Wide12 => {
            assert(((hi & 0xF0) | (((v >> 8u16) as u8) & 0x0F)) & 0xF0 == hi & 0xF0) by (bit_vector);
        },
        Enc::Cutoff11 => {
            assert(((hi & 0xF0) | (((v >> 7u16) as u8) & 0x0F)) & 0xF0 == hi & 0xF0) by (bit_vector);
            assert(((lo & 0x80) | ((v as u8) & 0x7F)) & 0x80 == lo & 0x80) by (bit_vector);
        },
    }
}

/// Offset of the engine byte in a patch.
pub const ENGINE_OFFSET: usize = 0x10;
/// Offset of the Lead engine's voice-flags byte in a patch (the first of
/// its globals).
pub const VFLAGS_OFFSET: usize = 0x50;

/// A patch's engine byte and Lead voice-flags byte.
pub fn patch_detail_bytes(patch: &[u8; 512]) -> (r: (u8, u8))
    ensures
        r == (patch@[ENGINE_OFFSET as int], patch@[VFLAGS_OFFSET as int]),
{
    (patch[ENGINE_OFFSET], patch[VFLAGS_OFFSET])
}

/// A global byte of the Lead patch: detune at field 1, volume at 2, phase
/// at 3 of the block at 0x50.
pub open spec fn global_at(field: int) -> int {
    0x50 + field
}

/// Byte `field` of filter block `f` (0 left, 1 right): six bytes from 0x54,
/// the channel/mode byte at field 0, the cutoff pair at 1, resonance at 3.
pub open spec fn filter_at(f: int, field: int) -> int {
    0x54 + 6 * f + field
}

/// Byte `field` of voice `v` (0-2 the left SID, 3-5 the right): sixteen
/// bytes from 0x60, waveform at 1, attack/decay at 2, sustain/release at
/// 3, the pulse-width pair at 4, portamento at 0xB.
pub open spec fn voice_at(v: int, field: int) -> int {
    0x60 + 16 * v + field
}

/// Byte `field` of LFO `l`: five bytes from 0xC0, in the order mode,
/// depth, rate, delay, phase.
pub open spec fn lfo_at(l: int, field: int) -> int {
    0xC0 + 5 * l + field
}

/// Row `i` of the parameter table is labelled `label`, edits the field
/// `enc` of the patch byte at `addr`, and mirrors it at `mirror`.
pub open spec fn row_is(i: int, label: &str, addr: int, mirror: Option<int>, enc: Enc) -> bool {
    let d = lead_table()[i];
    &&& d.label@ == label@
    &&& d.addr == addr
    &&& d.enc == enc
    &&& match mirror {
        Some(m) => d.mirror == Some(m as u16),
        None => d.mirror is None,
    }
}

/// Law: each row of the parameter table edits the patch byte its label
/// names in the Lead patch layout: the global bytes, the left filter block
/// (mirrored on the right one), voices 0-2 (mirrored on voices 3-5, the
/// right SID), and the rate and depth of LFOs 1 and 2; each sub-byte field
/// sits in the nibble the layout gives it.
pub proof fn lemma_lead_rows_follow_layout()
    ensures
        lead_table().len() == 32,
        row_is(0, "Volume", global_at(2), None, Enc::Byte { shift: 0, mask: 0x0F }),
        row_is(1, "Detune", global_at(1), None, Enc::Byte { shift: 0, mask: 0xFF }),
        row_is(2, "Phase", global_at(3), None, Enc::Byte { shift: 0, mask: 0xFF }),
        row_is(3, "Cutoff", filter_at(0, 1), Some(filter_at(1, 1)), Enc::Cutoff11),
        row_is(4, "Reso", filter_at(0, 3), Some(filter_at(1, 3)), Enc::Byte { shift: 4, mask: 0x0F }),
        row_is(5, "FltMode", filter_at(0, 0), Some(filter_at(1, 0)), Enc::Byte { shift: 4, mask: 0x0F }),
        row_is(6, "FltChn", filter_at(0, 0), Some(filter_at(1, 0)), Enc::Byte { shift: 0, mask: 0x0F }),
        row_is(7, "O1 Wave", voice_at(0, 1), Some(voice_at(3, 1)), Enc::Byte { shift: 0, mask: 0xFF }),
        row_is(8, "O1 Atk", voice_at(0, 2), Some(voice_at(3, 2)), Enc::Byte { shift: 4, mask: 0x0F }),
        row_is(9, "O1 Dec", voice_at(0, 2), Some(voice_at(3, 2)), Enc::Byte { shift: 0, mask: 0x0F }),
        row_is(10, "O1 Sus", voice_at(0, 3), Some(voice_at(3, 3)), Enc::Byte { shift: 4, mask: 0x0F }),
        row_is(11, "O1 Rel", voice_at(0, 3), Some(voice_at(3, 3)), Enc::Byte { shift: 0, mask: 0x0F }),
        row_is(12, "O1 PW", voice_at(0, 4), Some(voice_at(3, 4)), Enc::Wide12),
        row_is(13, "O1 Porta", voice_at(0, 11), Some(voice_at(3, 11)), Enc::Byte { shift: 0, mask: 0xFF }),
        row_is(14, "O2 Wave", voice_at(1, 1), Some(voice_at(4, 1)), Enc::Byte { shift: 0, mask: 0xFF }),
        row_is(15, "O2 Atk", voice_at(1, 2), Some(voice_at(4, 2)), Enc::Byte { shift: 4, mask: 0x0F }),
        row_is(16, "O2 Dec", voice_at(1, 2), Some(voice_at(4, 2)), Enc::Byte { shift: 0, mask: 0x0F }),
        row_is(17, "O2 Sus", voice_at(1, 3), Some(voice_at(4, 3)), Enc::Byte { shift: 4, mask: 0x0F }),
        row_is(18, "O2 Rel", voice_at(1, 3), Some(voice_at(4, 3)), Enc::Byte { shift: 0, mask: 0x0F }),
        row_is(19, "O2 PW", voice_at(1, 4), Some(voice_at(4, 4)), Enc::Wide12),
        row_is(20, "O2 Porta", voice_at(1, 11), Some(voice_at(4, 11)), Enc::Byte { shift: 0, mask: 0xFF }),
        row_is(21, "O3 Wave", voice_at(2, 1), Some(voice_at(5, 1)), Enc::Byte { shift: 0, mask: 0xFF }),
        row_is(22, "O3 Atk", voice_at(2, 2), Some(voice_at(5, 2)), Enc::Byte { shift: 4, mask: 0x0F }),
        row_is(23, "O3 Dec", voice_at(2, 2), Some(voice_at(5, 2)), Enc::Byte { shift: 0, mask: 0x0F }),
        row_is(24, "O3 Sus", voice_at(2, 3), Some(voice_at(5, 3)), Enc::Byte { shift: 4, mask: 0x0F }),
        row_is(25, "O3 Rel", voice_at(2, 3), Some(voice_at(5, 3)), Enc::Byte { shift: 0, mask: 0x0F }),
        row_is(26, "O3 PW", voice_at(2, 4), Some(voice_at(5, 4)), Enc::Wide12),
        row_is(27, "O3 Porta", voice_at(2, 11), Some(voice_at(5, 11)), Enc::Byte { shift: 0, mask: 0xFF }),
        row_is(28, "L1 Rate", lfo_at(0, 2), None, Enc::Byte { shift: 0, mask: 0xFF }),
        row_is(29, "L1 Depth", lfo_at(0, 1), None, Enc::Byte { shift: 0, mask: 0xFF }),
        row_is(30, "L2 Rate", lfo_at(1, 2), None, Enc::Byte { shift: 0, mask: 0xFF }),
        row_is(31, "L2 Depth", lfo_at(1, 1), None, Enc::Byte { shift: 0, mask: 0xFF }),
{
}

} // verus!
