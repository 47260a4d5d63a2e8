use vstd::prelude::*;
use vstd::string::StringSliceAdditionalSpecFns;
use midi_convert::midi_types::MidiMessage as M;
use midi_convert::parse::MidiTryParseSlice;
use crate::mbsid::control::MidiMsg as G;

verus! {

#[verifier::external_type_specification]
#[verifier::external_body]
#[verifier::reject_recursive_types(T)]
pub struct ExHeaplessVec<T, const N: usize>(heapless::Vec<T, N>);

/// Contents of a 32-entry SID register write list.
pub uninterp spec fn write_list_items(v: heapless::Vec<(u8, u8), 32>) -> Seq<(u8, u8)>;

/// `heapless::Vec::push` on a 32-entry write list: appends when not full,
/// otherwise hands the item back and leaves the list unchanged.
#[verifier::external_body]
pub(crate) fn write_list_push(v: &mut heapless::Vec<(u8, u8), 32>, item: (u8, u8)) -> (pushed: Result<(), (u8, u8)>)
    ensures
        pushed is Ok <==> write_list_items(*old(v)).len() < 32,
        pushed matches Err(back) ==> back == item,
        write_list_items(*final(v)) == (if write_list_items(*old(v)).len() < 32 {
            write_list_items(*old(v)).push(item)
        } else {
            write_list_items(*old(v))
        }),
{
    v.push(item)
}

/// Contents of a four-entry patch edit list of `(address, byte)` writes.
pub uninterp spec fn edit_list_items(v: heapless::Vec<(u16, u8), 4>) -> Seq<(u16, u8)>;

/// `heapless::Vec::new` for a patch edit list: the list starts empty.
#[verifier::external_body]
pub(crate) fn edit_list_new() -> (v: heapless::Vec<(u16, u8), 4>)
    ensures
        edit_list_items(v) == Seq::<(u16, u8)>::empty(),
{
    heapless::Vec::new()
}

/// `heapless::Vec::push` on a patch edit list: appends when fewer than four
/// writes are held, otherwise hands the item back and leaves the list unchanged.
#[verifier::external_body]
pub(crate) fn edit_list_push(v: &mut heapless::Vec<(u16, u8), 4>, item: (u16, u8)) -> (pushed: Result<(), (u16, u8)>)
    ensures
        pushed is Ok <==> edit_list_items(*old(v)).len() < 4,
        pushed matches Err(back) ==> back == item,
        edit_list_items(*final(v)) == (if edit_list_items(*old(v)).len() < 4 {
            edit_list_items(*old(v)).push(item)
        } else {
            edit_list_items(*old(v))
        }),
{
    v.push(item)
}

/// `core::str::from_utf8`: the string whose UTF-8 encoding is `v`, or
/// `None` when `v` is not valid UTF-8.
#[verifier::external_body]
pub(crate) fn utf8_str(v: &[u8]) -> (r: Option<&str>)
    ensures
        r is Some <==> vstd::utf8::valid_utf8(v@),
        r matches Some(s) ==> s.spec_bytes() == v@,
{
    core::str::from_utf8(v).ok()
}

#[verifier::external_type_specification]
#[verifier::external_body]
pub struct ExHeaplessString<const N: usize>(heapless::String<N>);

/// The UTF-8 bytes of a 48-byte screen text.
pub uninterp spec fn text_bytes(s: heapless::String<48>) -> Seq<u8>;

/// `heapless::String::new` for a screen text: the text starts empty.
#[verifier::external_body]
pub(crate) fn text_new() -> (s: heapless::String<48>)
    ensures
        text_bytes(s) == Seq::<u8>::empty(),
{
    heapless::String::new()
}

/// `heapless::String::push_str` on a screen text: appends the bytes of `t`
/// when they all fit in 48 bytes, otherwise changes nothing and fails.
#[verifier::external_body]
pub(crate) fn text_push_str(s: &mut heapless::String<48>, t: &str) -> (r: Result<(), ()>)
    ensures
        r is Ok <==> text_bytes(*old(s)).len() + t.spec_bytes().len() <= 48,
        text_bytes(*final(s)) == (if text_bytes(*old(s)).len() + t.spec_bytes().len() <= 48 {
            text_bytes(*old(s)) + t.spec_bytes()
        } else {
            text_bytes(*old(s))
        }),
{
    s.push_str(t)
}

/// `heapless::String::push` on a screen text: appends the UTF-8 encoding of
/// `c` when it fits in 48 bytes, otherwise changes nothing and fails.
#[verifier::external_body]
pub(crate) fn text_push(s: &mut heapless::String<48>, c: char) -> (r: Result<(), ()>)
    ensures
        r is Ok <==> text_bytes(*old(s)).len() + vstd::utf8::encode_utf8(seq![c]).len() <= 48,
        text_bytes(*final(s)) == (if text_bytes(*old(s)).len() + vstd::utf8::encode_utf8(seq![c]).len() <= 48 {
            text_bytes(*old(s)) + vstd::utf8::encode_utf8(seq![c])
        } else {
            text_bytes(*old(s))
        }),
{
    s.push(c)
}

/// `==` on screen texts (heapless's `PartialEq`, which compares the strings).
#[verifier::external_body]
pub(crate) fn text_eq(a: &heapless::String<48>, b: &heapless::String<48>) -> (r: bool)
    ensures
        r == (text_bytes(*a) == text_bytes(*b)),
{
    a == b
}

/// `Clone` of a screen text: the copy holds the same bytes.
#[verifier::external_body]
pub(crate) fn text_clone(a: &heapless::String<48>) -> (r: heapless::String<48>)
    ensures
        text_bytes(r) == text_bytes(*a),
{
    a.clone()
}

/// The items of a menu frame (at most twelve), each as its position,
/// style and text bytes.
pub uninterp spec fn frame_items(v: heapless::Vec<crate::mbsid::frame::Item, 12>) -> Seq<(i32, i32, bool, Seq<u8>)>;

/// `heapless::Vec::new` for a frame's items: no items.
#[verifier::external_body]
pub(crate) fn frame_items_new() -> (v: heapless::Vec<crate::mbsid::frame::Item, 12>)
    ensures
        frame_items(v) == Seq::<(i32, i32, bool, Seq<u8>)>::empty(),
{
    heapless::Vec::new()
}

/// `heapless::Vec::push` on a frame's items: appends when fewer than twelve
/// items are held, otherwise hands the item back and changes nothing.
#[verifier::external_body]
pub(crate) fn frame_items_push(
    v: &mut heapless::Vec<crate::mbsid::frame::Item, 12>,
    item: crate::mbsid::frame::Item,
) -> (r: Result<(), crate::mbsid::frame::Item>)
    ensures
        r is Ok <==> frame_items(*old(v)).len() < 12,
        frame_items(*final(v)) == (if frame_items(*old(v)).len() < 12 {
            frame_items(*old(v)).push((item.x, item.y, item.bright, text_bytes(item.text)))
        } else {
            frame_items(*old(v))
        }),
{
    v.push(item)
}

/// `heapless::Vec::len` on a frame's items.
#[verifier::external_body]
pub(crate) fn frame_items_len(v: &heapless::Vec<crate::mbsid::frame::Item, 12>) -> (n: usize)
    ensures
        n == frame_items(*v).len(),
        n <= 12,
{
    v.len()
}

/// Indexing a frame's items (`heapless::Vec` derefs to a slice).
#[verifier::external_body]
pub(crate) fn frame_item_at(v: &heapless::Vec<crate::mbsid::frame::Item, 12>, i: usize) -> (r: &crate::mbsid::frame::Item)
    requires
        i < frame_items(*v).len(),
    ensures
        (r.x, r.y, r.bright, text_bytes(r.text)) == frame_items(*v)[i as int],
{
    &v[i]
}

/// The paint operations of a frame diff (at most twenty-four).
pub uninterp spec fn paint_ops(v: heapless::Vec<crate::mbsid::frame::PaintOp, 24>) -> Seq<crate::mbsid::frame::PaintOp>;

/// `heapless::Vec::new` for a paint-op list: no operations.
#[verifier::external_body]
pub(crate) fn paint_ops_new() -> (v: heapless::Vec<crate::mbsid::frame::PaintOp, 24>)
    ensures
        paint_ops(v) == Seq::<crate::mbsid::frame::PaintOp>::empty(),
{
    heapless::Vec::new()
}

/// `heapless::Vec::push` on a paint-op list: appends when fewer than
/// twenty-four operations are held, otherwise changes nothing.
#[verifier::external_body]
pub(crate) fn paint_ops_push(
    v: &mut heapless::Vec<crate::mbsid::frame::PaintOp, 24>,
    op: crate::mbsid::frame::PaintOp,
) -> (r: Result<(), crate::mbsid::frame::PaintOp>)
    ensures
        r is Ok <==> paint_ops(*old(v)).len() < 24,
        paint_ops(*final(v)) == (if paint_ops(*old(v)).len() < 24 {
            paint_ops(*old(v)).push(op)
        } else {
            paint_ops(*old(v))
        }),
{
    v.push(op)
}

/// `heapless::String::as_str` on a screen text: the same bytes as a `&str`.
#[verifier::external_body]
pub(crate) fn text_as_str(s: &heapless::String<48>) -> (r: &str)
    ensures
        r.spec_bytes() == text_bytes(*s),
        r.spec_bytes().len() <= 48,
{
    s.as_str()
}

/// Contents of a 16-entry SID modulation write list.
pub uninterp spec fn mod_list_items(v: heapless::Vec<(u8, u8), 16>) -> Seq<(u8, u8)>;

/// `heapless::Vec::new` for a modulation write list: the list starts empty.
#[verifier::external_body]
pub(crate) fn mod_list_new() -> (v: heapless::Vec<(u8, u8), 16>)
    ensures
        mod_list_items(v) == Seq::<(u8, u8)>::empty(),
{
    heapless::Vec::new()
}

/// The UTF-8 bytes of a 24-byte status text.
pub uninterp spec fn status_bytes(s: heapless::String<24>) -> Seq<u8>;

/// `heapless::String::new` for a status text: the text starts empty.
#[verifier::external_body]
pub(crate) fn status_new() -> (s: heapless::String<24>)
    ensures
        status_bytes(s) == Seq::<u8>::empty(),
{
    heapless::String::new()
}

/// `heapless::String::push_str` on a status text: appends the bytes of `t`
/// when they all fit in 24 bytes, otherwise changes nothing and fails.
#[verifier::external_body]
pub(crate) fn status_push_str(s: &mut heapless::String<24>, t: &str) -> (r: Result<(), ()>)
    ensures
        r is Ok <==> status_bytes(*old(s)).len() + t.spec_bytes().len() <= 24,
        status_bytes(*final(s)) == (if status_bytes(*old(s)).len() + t.spec_bytes().len() <= 24 {
            status_bytes(*old(s)) + t.spec_bytes()
        } else {
            status_bytes(*old(s))
        }),
{
    s.push_str(t)
}

/// `heapless::String::push` of an ASCII character on a status text: appends
/// its byte when it fits in 24 bytes, otherwise changes nothing and fails.
#[verifier::external_body]
pub(crate) fn status_push_ascii(s: &mut heapless::String<24>, b: u8) -> (r: Result<(), ()>)
    requires
        b < 0x80,
    ensures
        r is Ok <==> status_bytes(*old(s)).len() < 24,
        status_bytes(*final(s)) == (if status_bytes(*old(s)).len() < 24 {
            status_bytes(*old(s)).push(b)
        } else {
            status_bytes(*old(s))
        }),
{
    s.push(b as char)
}

/// `heapless::String::as_str` on a status text: its bytes as a `&str`.
#[verifier::external_body]
pub(crate) fn status_as_str(s: &heapless::String<24>) -> (r: &str)
    ensures
        r.spec_bytes() == status_bytes(*s),
{
    s.as_str()
}

/// The entries of a PLAY frame's SID write buffer (at most 256).
pub uninterp spec fn sid_write_items(v: heapless::Vec<crate::sid_player_sw::player::SidWrite, 256>) -> Seq<
    crate::sid_player_sw::player::SidWrite,
>;

/// `heapless::Vec::new` for a SID write buffer: no entries.
#[verifier::external_body]
pub(crate) fn sid_writes_new() -> (v: heapless::Vec<crate::sid_player_sw::player::SidWrite, 256>)
    ensures
        sid_write_items(v) == Seq::<crate::sid_player_sw::player::SidWrite>::empty(),
{
    heapless::Vec::new()
}

/// `heapless::Vec::push` on a SID write buffer: appends when fewer than 256
/// entries are held, otherwise hands the entry back and changes nothing.
#[verifier::external_body]
pub(crate) fn sid_writes_push(
    v: &mut heapless::Vec<crate::sid_player_sw::player::SidWrite, 256>,
    w: crate::sid_player_sw::player::SidWrite,
) -> (r: Result<(), crate::sid_player_sw::player::SidWrite>)
    ensures
        r is Ok <==> sid_write_items(*old(v)).len() < 256,
        sid_write_items(*final(v)) == (if sid_write_items(*old(v)).len() < 256 {
            sid_write_items(*old(v)).push(w)
        } else {
            sid_write_items(*old(v))
        }),
{
    v.push(w)
}

/// `heapless::Vec::len` on a SID write buffer.
#[verifier::external_body]
pub(crate) fn sid_writes_len(v: &heapless::Vec<crate::sid_player_sw::player::SidWrite, 256>) -> (n: usize)
    ensures
        n == sid_write_items(*v).len(),
        n <= 256,
{
    v.len()
}

/// `heapless::Vec::clear` on a SID write buffer: no entries left.
#[verifier::external_body]
pub(crate) fn sid_writes_clear(v: &mut heapless::Vec<crate::sid_player_sw::player::SidWrite, 256>)
    ensures
        sid_write_items(*final(v)) == Seq::<crate::sid_player_sw::player::SidWrite>::empty(),
{
    v.clear()
}

/// Indexing a SID write buffer (`heapless::Vec` derefs to a slice).
#[verifier::external_body]
pub(crate) fn sid_writes_get(v: &heapless::Vec<crate::sid_player_sw::player::SidWrite, 256>, i: usize) -> (w:
    crate::sid_player_sw::player::SidWrite)
    requires
        i < sid_write_items(*v).len(),
    ensures
        w == sid_write_items(*v)[i as int],
{
    v[i]
}

/// Replacing entry `i` of a SID write buffer through its mutable slice.
#[verifier::external_body]
pub(crate) fn sid_writes_set(
    v: &mut heapless::Vec<crate::sid_player_sw::player::SidWrite, 256>,
    i: usize,
    w: crate::sid_player_sw::player::SidWrite,
)
    requires
        i < sid_write_items(*old(v)).len(),
    ensures
        sid_write_items(*final(v)) == sid_write_items(*old(v)).update(i as int, w),
{
    v[i] = w;
}

/// `MidiMessage::try_parse_slice` (midi-convert) on a three-byte MIDI-in
/// FIFO word, keeping what the engine dispatch reads: the status byte picks
/// the message (`0x8n` note off, `0x9n` note on, `0xAn` key pressure, `0xBn`
/// control change, `0xCn` program change, `0xDn` channel pressure, `0xEn`
/// pitch bend, `0xF1`-`0xF3`, `0xF6` and the real-time bytes other system
/// messages), `n` is the channel, and the data bytes are passed through;
/// anything else is no message. The data bytes must be at most 127, as the
/// crate's value types assert.
#[verifier::external_body]
pub(crate) fn midi_parse(bytes: &[u8; 3]) -> (m: Option<G>)
    requires
        bytes@[1] <= 127,
        bytes@[2] <= 127,
    ensures
        m == crate::mbsid::control::midi_msg_of(bytes@),
{
    Some(match M::try_parse_slice(bytes).ok()? {
        M::NoteOff(c, n, v) => G::NoteOff(c.into(), n.into(), v.into()),
        M::NoteOn(c, n, v) => G::NoteOn(c.into(), n.into(), v.into()),
        M::ControlChange(c, k, v) => G::ControlChange(c.into(), k.into(), v.into()),
        M::ProgramChange(c, p) => G::ProgramChange(c.into(), p.into()),
        M::ChannelPressure(c, v) => G::ChannelPressure(c.into(), v.into()),
        M::PitchBendChange(c, _) => G::PitchBend(c.into()),
        _ => G::Other,
    })
}

}
