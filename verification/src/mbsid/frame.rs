//! Menu frames as lists of positioned text items, and the diff that turns
//! one painted frame into the next with glyph blits only: an Erase re-blits
//! the old text at intensity 0, a Draw blits the new text.
use vstd::prelude::*;
use vstd::string::StringSliceAdditionalSpecFns;
use crate::outside::{
    frame_item_at, frame_items, frame_items_len, frame_items_new, frame_items_push, paint_ops, paint_ops_new,
    paint_ops_push, text_as_str, text_bytes, text_clone, text_eq, text_new, text_push, text_push_str,
};

verus! {

/// Most text items on screen at once.
pub const MAX_ITEMS: usize = 12;
/// Most paint operations a diff yields: every old item erased, every new one drawn.
pub const MAX_OPS: usize = 24;

/// One line of text at a position; `bright` selects the focused style.
#[derive(PartialEq, Eq, Debug)]
pub struct Item {
    pub x: i32,
    pub y: i32,
    pub bright: bool,
    pub text: heapless::String<48>,
}

/// A menu screen as a list of text items.
#[derive(PartialEq, Eq, Debug)]
pub struct Frame {
    pub items: heapless::Vec<Item, 12>,
}

/// A frame's items as position, style and text bytes.
pub open spec fn items_of(f: Frame) -> Seq<(i32, i32, bool, Seq<u8>)> {
    frame_items(f.items)
}

/// The text a pushed string becomes: its bytes when they fit in 48 bytes,
/// otherwise nothing.
pub open spec fn fitted_text(t: Seq<u8>) -> Seq<u8> {
    if t.len() <= 48 {
        t
    } else {
        Seq::empty()
    }
}

/// A frame's items after pushing one more, which is dropped when the frame
/// already holds twelve.
pub open spec fn pushed_items(items: Seq<(i32, i32, bool, Seq<u8>)>, x: i32, y: i32, bright: bool, t: Seq<u8>) -> Seq<
    (i32, i32, bool, Seq<u8>),
> {
    if items.len() < MAX_ITEMS {
        items.push((x, y, bright, fitted_text(t)))
    } else {
        items
    }
}

impl Clone for Item {
    fn clone(&self) -> (c: Self)
        ensures
            (c.x, c.y, c.bright, text_bytes(c.text)) == (self.x, self.y, self.bright, text_bytes(self.text)),
    {
        Item { x: self.x, y: self.y, bright: self.bright, text: text_clone(&self.text) }
    }
}

impl Clone for Frame {
    fn clone(&self) -> (c: Self)
        ensures
            items_of(c) == items_of(*self),
    {
        let mut items = frame_items_new();
        let n = frame_items_len(&self.items);
        let mut i: usize = 0;
        while i < n
            invariant
                i <= n <= 12,
                n == items_of(*self).len(),
                frame_items(items) == items_of(*self).take(i as int),
            decreases n - i,
        {
            let it = frame_item_at(&self.items, i).clone();
            let _ = frame_items_push(&mut items, it);
            proof {
                assert(frame_items(items) =~= items_of(*self).take(i as int + 1));
            }
            i = i + 1;
        }
        proof {
            assert(items_of(*self).take(n as int) =~= items_of(*self));
        }
        Frame { items }
    }
}

impl Default for Frame {
    fn default() -> (f: Self)
        ensures
            items_of(f) == Seq::<(i32, i32, bool, Seq<u8>)>::empty(),
    {
        Frame { items: frame_items_new() }
    }
}

impl Frame {
    /// Appends a text item; text over 48 bytes becomes empty and items past
    /// the twelfth are dropped.
    pub fn push(&mut self, x: i32, y: i32, bright: bool, text: &str)
        ensures
            items_of(*final(self)) == pushed_items(items_of(*old(self)), x, y, bright, text.spec_bytes()),
    {
        let mut s = text_new();
        let _ = text_push_str(&mut s, text);
        let _ = frame_items_push(&mut self.items, Item { x, y, bright, text: s });
    }
}

/// One paint operation: `Erase(i)` re-blits old item `i` at intensity 0,
/// `Draw(i)` blits new item `i`.
#[derive(Clone, Copy, PartialEq, Eq, Debug, Structural)]
pub enum PaintOp {
    Erase(u8),
    Draw(u8),
}

/// An old item survives when the new frame has an item at the same position
/// with the same text.
pub open spec fn survives(o: (i32, i32, bool, Seq<u8>), next: Seq<(i32, i32, bool, Seq<u8>)>) -> bool {
    exists|j: int| 0 <= j < next.len() && next[j].0 == o.0 && next[j].1 == o.1 && next[j].3 == o.3
}

/// A new item is unchanged when the old frame has the very same item.
pub open spec fn unchanged(n: (i32, i32, bool, Seq<u8>), prev: Seq<(i32, i32, bool, Seq<u8>)>) -> bool {
    exists|j: int| 0 <= j < prev.len() && prev[j] == n
}

/// The erases for the first `k` old items, in order.
pub open spec fn erase_ops(prev: Seq<(i32, i32, bool, Seq<u8>)>, next: Seq<(i32, i32, bool, Seq<u8>)>, k: int) -> Seq<
    PaintOp,
>
    decreases k,
{
    if k <= 0 {
        Seq::empty()
    } else if survives(prev[k - 1], next) {
        erase_ops(prev, next, k - 1)
    } else {
        erase_ops(prev, next, k - 1).push(PaintOp::Erase((k - 1) as u8))
    }
}

/// The draws for the first `k` new items, in order.
pub open spec fn draw_ops(prev: Seq<(i32, i32, bool, Seq<u8>)>, next: Seq<(i32, i32, bool, Seq<u8>)>, k: int) -> Seq<
    PaintOp,
>
    decreases k,
{
    if k <= 0 {
        Seq::empty()
    } else if unchanged(next[k - 1], prev) {
        draw_ops(prev, next, k - 1)
    } else {
        draw_ops(prev, next, k - 1).push(PaintOp::Draw((k - 1) as u8))
    }
}

/// All paint operations from `prev` to `next`: every erase, then every draw.
pub open spec fn diff_ops(prev: Seq<(i32, i32, bool, Seq<u8>)>, next: Seq<(i32, i32, bool, Seq<u8>)>) -> Seq<PaintOp> {
    erase_ops(prev, next, prev.len() as int) + draw_ops(prev, next, next.len() as int)
}

proof fn lemma_erase_ops_len(prev: Seq<(i32, i32, bool, Seq<u8>)>, next: Seq<(i32, i32, bool, Seq<u8>)>, k: int)
    requires
        0 <= k,
    ensures
        erase_ops(prev, next, k).len() <= k,
    decreases k,
{
    if k > 0 {
        lemma_erase_ops_len(prev, next, k - 1);
    }
}

proof fn lemma_draw_ops_len(prev: Seq<(i32, i32, bool, Seq<u8>)>, next: Seq<(i32, i32, bool, Seq<u8>)>, k: int)
    requires
        0 <= k,
    ensures
        draw_ops(prev, next, k).len() <= k,
    decreases k,
{
    if k > 0 {
        lemma_draw_ops_len(prev, next, k - 1);
    }
}

fn item_survives(o: &Item, next: &Frame) -> (b: bool)
    ensures
        b == survives((o.x, o.y, o.bright, text_bytes(o.text)), items_of(*next)),
{
    let n = frame_items_len(&next.items);
    let ghost ov = (o.x, o.y, o.bright, text_bytes(o.text));
    let mut j: usize = 0;
    while j < n
        invariant
            j <= n,
            n == items_of(*next).len(),
            ov == (o.x, o.y, o.bright, text_bytes(o.text)),
            forall|k: int|
                0 <= k < j ==> !(items_of(*next)[k].0 == ov.0 && items_of(*next)[k].1 == ov.1 && items_of(*next)[k].3
                    == ov.3),
        decreases n - j,
    {
        let it = frame_item_at(&next.items, j);
        if it.x == o.x && it.y == o.y && text_eq(&it.text, &o.text) {
            assert(items_of(*next)[j as int].0 == ov.0 && items_of(*next)[j as int].1 == ov.1);
            return true;
        }
        j = j + 1;
    }
    false
}

fn item_unchanged(n: &Item, prev: &Frame) -> (b: bool)
    ensures
        b == unchanged((n.x, n.y, n.bright, text_bytes(n.text)), items_of(*prev)),
{
    let len = frame_items_len(&prev.items);
    let ghost nv = (n.x, n.y, n.bright, text_bytes(n.text));
    let mut j: usize = 0;
    while j < len
        invariant
            j <= len,
            len == items_of(*prev).len(),
            nv == (n.x, n.y, n.bright, text_bytes(n.text)),
            forall|k: int| 0 <= k < j ==> items_of(*prev)[k] != nv,
        decreases len - j,
    {
        let it = frame_item_at(&prev.items, j);
        if it.x == n.x && it.y == n.y && text_eq(&it.text, &n.text) && it.bright == n.bright {
            assert(items_of(*prev)[j as int] == nv);
            return true;
        }
        j = j + 1;
    }
    false
}

/// The paint operations that turn the painted frame `prev` into `next`:
/// an Erase for every old item with no same-position, same-text successor,
/// then a Draw for every new item with no identical predecessor.
pub fn diff(prev: &Frame, next: &Frame) -> (ops: heapless::Vec<PaintOp, 24>)
    ensures
        paint_ops(ops) == diff_ops(items_of(*prev), items_of(*next)),
{
    let mut ops = paint_ops_new();
    let np = frame_items_len(&prev.items);
    let nn = frame_items_len(&next.items);
    let mut i: usize = 0;
    while i < np
        invariant
            i <= np <= 12,
            np == items_of(*prev).len(),
            paint_ops(ops) == erase_ops(items_of(*prev), items_of(*next), i as int),
        decreases np - i,
    {
        proof {
            lemma_erase_ops_len(items_of(*prev), items_of(*next), i as int);
        }
        let o = frame_item_at(&prev.items, i);
        if !item_survives(o, next) {
            let _ = paint_ops_push(&mut ops, PaintOp::Erase(i as u8));
        }
        i = i + 1;
    }
    let ghost erases = paint_ops(ops);
    proof {
        lemma_erase_ops_len(items_of(*prev), items_of(*next), np as int);
    }
    let mut k: usize = 0;
    while k < nn
        invariant
            k <= nn <= 12,
            nn == items_of(*next).len(),
            erases.len() <= 12,
            paint_ops(ops) == erases + draw_ops(items_of(*prev), items_of(*next), k as int),
        decreases nn - k,
    {
        proof {
            lemma_draw_ops_len(items_of(*prev), items_of(*next), k as int);
        }
        let n = frame_item_at(&next.items, k);
        if !item_unchanged(n, prev) {
            let _ = paint_ops_push(&mut ops, PaintOp::Draw(k as u8));
            proof {
                assert(paint_ops(ops) =~= erases + draw_ops(items_of(*prev), items_of(*next), k as int + 1));
            }
        }
        k = k + 1;
    }
    ops
}

proof fn lemma_erase_ops_all_erase(prev: Seq<(i32, i32, bool, Seq<u8>)>, next: Seq<(i32, i32, bool, Seq<u8>)>, k: int)
    ensures
        forall|i: int| 0 <= i < erase_ops(prev, next, k).len() ==> #[trigger] erase_ops(prev, next, k)[i] is Erase,
    decreases k,
{
    if k > 0 {
        lemma_erase_ops_all_erase(prev, next, k - 1);
    }
}

proof fn lemma_draw_ops_all_draw(prev: Seq<(i32, i32, bool, Seq<u8>)>, next: Seq<(i32, i32, bool, Seq<u8>)>, k: int)
    ensures
        forall|i: int| 0 <= i < draw_ops(prev, next, k).len() ==> #[trigger] draw_ops(prev, next, k)[i] is Draw,
    decreases k,
{
    if k > 0 {
        lemma_draw_ops_all_draw(prev, next, k - 1);
    }
}

/// Every Erase precedes every Draw, so an erase never punches holes into
/// freshly drawn text.
pub proof fn lemma_erases_precede_draws(prev: Seq<(i32, i32, bool, Seq<u8>)>, next: Seq<(i32, i32, bool, Seq<u8>)>)
    ensures
        forall|i: int, j: int|
            0 <= i < j < diff_ops(prev, next).len() && #[trigger] diff_ops(prev, next)[j] is Erase ==> #[trigger] diff_ops(
                prev,
                next,
            )[i] is Erase,
{
    lemma_erase_ops_all_erase(prev, next, prev.len() as int);
    lemma_draw_ops_all_draw(prev, next, next.len() as int);
}

proof fn lemma_erase_ops_same(f: Seq<(i32, i32, bool, Seq<u8>)>, k: int)
    requires
        k <= f.len(),
    ensures
        erase_ops(f, f, k) == Seq::<PaintOp>::empty(),
    decreases k,
{
    if k > 0 {
        lemma_erase_ops_same(f, k - 1);
        assert(f[k - 1].0 == f[k - 1].0 && f[k - 1].1 == f[k - 1].1 && f[k - 1].3 == f[k - 1].3);
        assert(survives(f[k - 1], f));
    }
}

proof fn lemma_draw_ops_same(f: Seq<(i32, i32, bool, Seq<u8>)>, k: int)
    requires
        k <= f.len(),
    ensures
        draw_ops(f, f, k) == Seq::<PaintOp>::empty(),
    decreases k,
{
    if k > 0 {
        lemma_draw_ops_same(f, k - 1);
        assert(unchanged(f[k - 1], f));
    }
}

/// Repainting an unchanged frame costs nothing.
pub proof fn lemma_identical_frames_no_ops(f: Seq<(i32, i32, bool, Seq<u8>)>)
    ensures
        diff_ops(f, f) == Seq::<PaintOp>::empty(),
{
    lemma_erase_ops_same(f, f.len() as int);
    lemma_draw_ops_same(f, f.len() as int);
}

/// Text built the way `write!` fills a fixed-capacity string: pieces are
/// appended in order while they fit in 48 bytes; the first piece that does
/// not fit stops the line.
pub open spec fn put_piece(state: (Seq<u8>, bool), p: Seq<u8>) -> (Seq<u8>, bool) {
    if state.1 && state.0.len() + p.len() <= 48 {
        (state.0 + p, true)
    } else {
        (state.0, false)
    }
}

/// The bytes of a line made of `pieces`.
pub open spec fn line_text(pieces: Seq<Seq<u8>>) -> Seq<u8> {
    fold_pieces((Seq::empty(), true), pieces).0
}

/// The UTF-8 bytes of one character.
pub open spec fn char_bytes(c: char) -> Seq<u8> {
    vstd::utf8::encode_utf8(seq![c])
}

/// The decimal digits of `n`, most significant first, without padding.
pub open spec fn dec_digits(n: nat) -> Seq<u8>
    decreases n,
{
    if n < 10 {
        seq![(0x30 + n) as u8]
    } else {
        dec_digits(n / 10).push((0x30 + n % 10) as u8)
    }
}

/// The pieces `{:0w$}` writes for `n`: one piece per padding zero, then
/// the digits as one piece.
pub open spec fn zero_padded(n: nat, width: nat) -> Seq<Seq<u8>> {
    let d = dec_digits(n);
    Seq::new((if width > d.len() { width - d.len() } else { 0 }) as nat, |i: int| seq![0x30u8]).push(d)
}

/// The pieces `{:0w$}` writes for a signed `n`: as for a non-negative
/// number when `n >= 0`; otherwise the `-` sign as one piece, then the
/// padding zeros that bring the whole to `width` characters, then the
/// digits of `-n`.
pub open spec fn signed_zero_padded(n: int, width: nat) -> Seq<Seq<u8>> {
    if n >= 0 {
        zero_padded(n as nat, width)
    } else {
        seq![char_bytes('-')] + zero_padded((-n) as nat, if width >= 1 { (width - 1) as nat } else { 0 })
    }
}

/// The pieces `{:<w$}` writes for `t`: the text, then one piece per padding space.
pub open spec fn left_aligned(t: Seq<u8>, chars: nat, width: nat) -> Seq<Seq<u8>> {
    seq![t] + Seq::new((if width > chars { width - chars } else { 0 }) as nat, |i: int| seq![0x20u8])
}

proof fn lemma_ascii_char_bytes(b: u8)
    requires
        b < 0x80,
    ensures
        char_bytes(b as char) == seq![b],
{
    let c = b as char;
    reveal_with_fuel(vstd::utf8::encode_utf8, 2);
    assert(seq![c].drop_first() =~= Seq::<char>::empty());
    let v = c as u32;
    assert(v == b as u32);
    assert((v & 0x7F) as u8 == b) by (bit_vector)
        requires
            v == b as u32,
            b < 0x80,
    ;
}

/// Ten to the power `k`.
pub open spec fn pow10(k: nat) -> nat
    decreases k,
{
    if k == 0 {
        1
    } else {
        10 * pow10((k - 1) as nat)
    }
}

proof fn lemma_dec_digits_len(n: nat, k: nat)
    requires
        1 <= k,
        n < pow10(k),
    ensures
        1 <= dec_digits(n).len() <= k,
    decreases k,
{
    if n >= 10 {
        assert(k >= 2) by {
            if k == 1 {
                assert(pow10(1) == 10 * pow10(0));
            }
        }
        assert(n / 10 < pow10((k - 1) as nat));
        lemma_dec_digits_len(n / 10, (k - 1) as nat);
    }
}

/// A line under construction, with the pieces appended so far.
pub struct TextLine {
    text: heapless::String<48>,
    ok: bool,
    pieces: Ghost<Seq<Seq<u8>>>,
}

impl TextLine {
    /// The bytes so far and whether every piece fit.
    pub closed spec fn state(&self) -> (Seq<u8>, bool) {
        (text_bytes(self.text), self.ok)
    }

    /// The pieces appended so far.
    pub closed spec fn pieces(&self) -> Seq<Seq<u8>> {
        self.pieces@
    }

    /// The line holds exactly what its pieces make.
    pub open spec fn wf(&self) -> bool {
        self.state() == fold_pieces((Seq::empty(), true), self.pieces())
    }

    /// An empty line.
    pub fn new() -> (l: Self)
        ensures
            l.state() == (Seq::<u8>::empty(), true),
            l.pieces() == Seq::<Seq<u8>>::empty(),
            l.wf(),
    {
        TextLine { text: text_new(), ok: true, pieces: Ghost(Seq::empty()) }
    }

    /// Appends `t` as one piece.
    pub fn add_str(&mut self, t: &str)
        requires
            old(self).wf(),
        ensures
            final(self).wf(),
            final(self).pieces() == old(self).pieces().push(t.spec_bytes()),
    {
        proof {
            lemma_fold_push((Seq::empty(), true), self.pieces@, t.spec_bytes());
        }
        self.put_str(t);
        self.pieces = Ghost(self.pieces@.push(t.spec_bytes()));
    }

    /// Appends `c` as one piece.
    pub fn add_char(&mut self, c: char)
        requires
            old(self).wf(),
        ensures
            final(self).wf(),
            final(self).pieces() == old(self).pieces().push(char_bytes(c)),
    {
        proof {
            lemma_fold_push((Seq::empty(), true), self.pieces@, char_bytes(c));
        }
        self.put_char(c);
        self.pieces = Ghost(self.pieces@.push(char_bytes(c)));
    }

    /// Appends the pieces `{:0width$}` writes for `n`.
    pub fn add_dec(&mut self, n: u32, width: usize)
        requires
            old(self).wf(),
            width <= 8,
        ensures
            final(self).wf(),
            final(self).pieces() == old(self).pieces() + zero_padded(n as nat, width as nat),
    {
        proof {
            lemma_fold_concat((Seq::empty(), true), self.pieces@, zero_padded(n as nat, width as nat));
        }
        self.put_dec(n, width);
        self.pieces = Ghost(self.pieces@ + zero_padded(n as nat, width as nat));
    }

    /// Appends the pieces `{:0width$}` writes for the signed `n`.
    pub fn add_signed_dec(&mut self, n: i32, width: usize)
        requires
            old(self).wf(),
            width <= 8,
        ensures
            final(self).wf(),
            final(self).pieces() == old(self).pieces() + signed_zero_padded(n as int, width as nat),
    {
        if n >= 0 {
            self.add_dec(n as u32, width);
        } else {
            let ghost p0 = self.pieces();
            self.add_char('-');
            let mag = (0 - (n as i64)) as u32;
            let w = if width >= 1 {
                width - 1
            } else {
                0
            };
            self.add_dec(mag, w);
            proof {
                assert(self.pieces() =~= p0 + signed_zero_padded(n as int, width as nat));
            }
        }
    }

    /// Appends the pieces `{:<width$}` writes for `t`.
    pub fn add_left(&mut self, t: &str, width: usize)
        requires
            old(self).wf(),
            width <= 48,
        ensures
            final(self).wf(),
            final(self).pieces() == old(self).pieces() + left_aligned(
                t.spec_bytes(),
                char_count(t.spec_bytes(), t.spec_bytes().len() as int),
                width as nat,
            ),
    {
        let ghost lp = left_aligned(t.spec_bytes(), char_count(t.spec_bytes(), t.spec_bytes().len() as int), width as nat);
        proof {
            lemma_fold_concat((Seq::empty(), true), self.pieces@, lp);
        }
        self.put_left(t, width);
        self.pieces = Ghost(self.pieces@ + lp);
    }

    /// The finished line.
    pub fn line(&self) -> (t: &str)
        requires
            self.wf(),
        ensures
            t.spec_bytes() == line_text(self.pieces()),
            t.spec_bytes().len() <= 48,
    {
        text_as_str(&self.text)
    }

    /// The finished line, taken out.
    pub fn into_line(self) -> (t: heapless::String<48>)
        requires
            self.wf(),
        ensures
            text_bytes(t) == line_text(self.pieces()),
    {
        self.text
    }

    /// Appends `t` as one piece.
    fn put_str(&mut self, t: &str)
        ensures
            final(self).pieces() == old(self).pieces(),
            final(self).state() == put_piece(old(self).state(), t.spec_bytes()),
    {
        if self.ok {
            if text_push_str(&mut self.text, t).is_err() {
                self.ok = false;
            }
        }
    }

    /// Appends `c` as one piece.
    fn put_char(&mut self, c: char)
        ensures
            final(self).pieces() == old(self).pieces(),
            final(self).state() == put_piece(old(self).state(), char_bytes(c)),
    {
        if self.ok {
            if text_push(&mut self.text, c).is_err() {
                self.ok = false;
            }
        }
    }

    /// Appends the pieces `{:0width$}` writes for `n`.
    fn put_dec(&mut self, n: u32, width: usize)
        requires
            width <= 8,
        ensures
            final(self).pieces() == old(self).pieces(),
            final(self).state() == fold_pieces(old(self).state(), zero_padded(n as nat, width as nat)),
    {
        let mut digits: [u8; 10] = [0u8; 10];
        let mut len: usize = 0;
        let mut m: u32 = n;
        proof {
            assert(pow10(10) == 10_000_000_000) by {
                reveal_with_fuel(pow10, 11);
            }
            lemma_dec_digits_len(n as nat, 10);
            assert(dec_digits(n as nat) =~= dec_digits(n as nat) + Seq::new(0, |i: int| digits@[0 - 1 - i]));
        }
        let ghost mut rest: nat = n as nat;
        loop
            invariant_except_break
                m == rest,
                dec_digits(n as nat) == dec_digits(rest) + Seq::new(len as nat, |i: int| digits@[len - 1 - i]),
                len + dec_digits(rest).len() <= 10,
            invariant
                len <= 10,
                digits@.len() == 10,
                forall|i: int| 0 <= i < len ==> 0x30 <= #[trigger] digits@[i] <= 0x39,
            ensures
                dec_digits(n as nat) == Seq::new(len as nat, |i: int| digits@[len - 1 - i]),
                1 <= len <= 10,
            decreases m,
        {
            let ghost before = Seq::new(len as nat, |i: int| digits@[len - 1 - i]);
            digits[len] = (0x30 + m % 10) as u8;
            len = len + 1;
            let ghost after = Seq::new(len as nat, |i: int| digits@[len - 1 - i]);
            proof {
                assert(after =~= seq![(0x30 + rest % 10) as u8] + before);
            }
            if m < 10 {
                proof {
                    assert(dec_digits(rest) == seq![(0x30 + rest) as u8]);
                    assert(dec_digits(n as nat) =~= after);
                }
                break;
            }
            m = m / 10;
            proof {
                let r0 = rest;
                rest = rest / 10;
                assert(dec_digits(r0) == dec_digits(rest).push((0x30 + r0 % 10) as u8));
                assert(dec_digits(n as nat) =~= dec_digits(rest) + after);
            }
        }
        let ghost d = dec_digits(n as nat);
        let pad = if width > len {
            width - len
        } else {
            0
        };
        let ghost s0 = self.state();
        let mut k: usize = 0;
        while k < pad
            invariant
                self.pieces() == old(self).pieces(),
                k <= pad,
                self.state() == fold_pieces(s0, Seq::new(k as nat, |i: int| seq![0x30u8])),
            decreases pad - k,
        {
            proof {
                lemma_ascii_char_bytes(0x30u8);
                lemma_fold_push(s0, Seq::new(k as nat, |i: int| seq![0x30u8]), seq![0x30u8]);
                assert(Seq::new(k as nat, |i: int| seq![0x30u8]).push(seq![0x30u8]) =~= Seq::new(
                    (k + 1) as nat,
                    |i: int| seq![0x30u8],
                ));
            }
            self.put_char('0');
            k = k + 1;
        }
        let ghost s1 = self.state();
        let fits = self.ok && text_as_str(&self.text).len() + len <= 48;
        if fits {
            let mut j: usize = 0;
            while j < len
                invariant
                    self.pieces() == old(self).pieces(),
                    j <= len <= 10,
                    self.ok,
                    s1.1,
                    s1.0.len() + len <= 48,
                    d == Seq::new(len as nat, |i: int| digits@[len - 1 - i]),
                    forall|i: int| 0 <= i < len ==> 0x30 <= #[trigger] digits@[i] <= 0x39,
                    self.state() == (s1.0 + d.take(j as int), true),
                decreases len - j,
            {
                let b = digits[len - 1 - j];
                proof {
                    lemma_ascii_char_bytes(b);
                }
                self.put_char(b as char);
                proof {
                    assert(d.take(j as int + 1) =~= d.take(j as int).push(b));
                }
                j = j + 1;
            }
            proof {
                assert(d.take(len as int) =~= d);
            }
        } else {
            self.ok = false;
        }
        proof {
            lemma_fold_push(s0, Seq::new(pad as nat, |i: int| seq![0x30u8]), d);
            assert(zero_padded(n as nat, width as nat) =~= Seq::new(pad as nat, |i: int| seq![0x30u8]).push(d));
        }
    }

    /// Appends the pieces `{:<width$}` writes for `t`.
    fn put_left(&mut self, t: &str, width: usize)
        requires
            width <= 48,
        ensures
            final(self).pieces() == old(self).pieces(),
            final(self).state() == fold_pieces(
                old(self).state(),
                left_aligned(t.spec_bytes(), char_count(t.spec_bytes(), t.spec_bytes().len() as int), width as nat),
            ),
    {
        let ghost s0 = self.state();
        self.put_str(t);
        let n = count_chars(t);
        let pad = if width > n {
            width - n
        } else {
            0
        };
        let ghost s1 = self.state();
        let mut k: usize = 0;
        while k < pad
            invariant
                self.pieces() == old(self).pieces(),
                k <= pad,
                self.state() == fold_pieces(s1, Seq::new(k as nat, |i: int| seq![0x20u8])),
            decreases pad - k,
        {
            proof {
                lemma_ascii_char_bytes(0x20u8);
                lemma_fold_push(s1, Seq::new(k as nat, |i: int| seq![0x20u8]), seq![0x20u8]);
                assert(Seq::new(k as nat, |i: int| seq![0x20u8]).push(seq![0x20u8]) =~= Seq::new(
                    (k + 1) as nat,
                    |i: int| seq![0x20u8],
                ));
            }
            self.put_char(' ');
            k = k + 1;
        }
        proof {
            lemma_fold_concat(s0, seq![t.spec_bytes()], Seq::new(pad as nat, |i: int| seq![0x20u8]));
            assert(fold_pieces(s0, seq![t.spec_bytes()]) == s1) by {
                reveal_with_fuel(fold_pieces, 2);
                assert(seq![t.spec_bytes()].drop_last() =~= Seq::<Seq<u8>>::empty());
            }
        }
    }

}

/// The number of characters among the first `k` bytes of UTF-8 text: the
/// bytes that are not continuation bytes (`0b10xx_xxxx`).
pub open spec fn char_count(b: Seq<u8>, k: int) -> nat
    decreases k,
{
    if k <= 0 {
        0
    } else {
        char_count(b, k - 1) + if b[k - 1] & 0xC0 != 0x80 { 1nat } else { 0nat }
    }
}

fn count_chars(t: &str) -> (n: usize)
    ensures
        n == char_count(t.spec_bytes(), t.spec_bytes().len() as int),
{
    let b = t.as_bytes();
    let mut n: usize = 0;
    let mut i: usize = 0;
    while i < b.len()
        invariant
            i <= b@.len(),
            b@ == t.spec_bytes(),
            n == char_count(b@, i as int),
            n <= i,
        decreases b@.len() - i,
    {
        if b[i] & 0xC0 != 0x80 {
            n = n + 1;
        }
        i = i + 1;
    }
    n
}

/// Appending `pieces`, in order, to a line in `state`.
pub open spec fn fold_pieces(state: (Seq<u8>, bool), pieces: Seq<Seq<u8>>) -> (Seq<u8>, bool)
    decreases pieces.len(),
{
    if pieces.len() == 0 {
        state
    } else {
        put_piece(fold_pieces(state, pieces.drop_last()), pieces.last())
    }
}

proof fn lemma_fold_push(state: (Seq<u8>, bool), pieces: Seq<Seq<u8>>, p: Seq<u8>)
    ensures
        fold_pieces(state, pieces.push(p)) == put_piece(fold_pieces(state, pieces), p),
{
    assert(pieces.push(p).drop_last() =~= pieces);
}

/// Appending two runs of pieces one after the other.
pub proof fn lemma_fold_concat(state: (Seq<u8>, bool), a: Seq<Seq<u8>>, b: Seq<Seq<u8>>)
    ensures
        fold_pieces(state, a + b) == fold_pieces(fold_pieces(state, a), b),
    decreases b.len(),
{
    if b.len() == 0 {
        assert(a + b =~= a);
    } else {
        lemma_fold_concat(state, a, b.drop_last());
        assert((a + b).drop_last() =~= a + b.drop_last());
    }
}

} // verus!
