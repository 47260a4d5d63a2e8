use vstd::prelude::*;
use crate::outside::{write_list_items, write_list_push};

verus! {

/// Number of SID registers mirrored by a shadow image.
pub const SID_REG_COUNT: usize = 32;

/// Capacity of a register write list.
pub const WRITE_LIST_CAP: usize = 32;

/// The `(register, value)` pairs for every register among the first `n`
/// whose value in `img` differs from `shadow`, in register order.
pub open spec fn diff_upto(shadow: Seq<u8>, img: Seq<u8>, n: int) -> Seq<(u8, u8)>
    decreases n,
{
    if n <= 0 {
        Seq::empty()
    } else {
        let before = diff_upto(shadow, img, n - 1);
        if img[n - 1] != shadow[n - 1] {
            before.push(((n - 1) as u8, img[n - 1]))
        } else {
            before
        }
    }
}

/// All register writes that turn `shadow` into `img`, in register order.
pub open spec fn diff_pairs(shadow: Seq<u8>, img: Seq<u8>) -> Seq<(u8, u8)> {
    diff_upto(shadow, img, SID_REG_COUNT as int)
}

/// Appending `d` to a write list holding `s`, dropping what no longer fits.
pub open spec fn fill_capped(s: Seq<(u8, u8)>, d: Seq<(u8, u8)>) -> Seq<(u8, u8)>
    decreases d.len(),
{
    if d.len() == 0 {
        s
    } else {
        let t = fill_capped(s, d.drop_last());
        if t.len() < WRITE_LIST_CAP {
            t.push(d.last())
        } else {
            t
        }
    }
}

/// The register image obtained by performing the writes `w` on `regs`, in order.
pub open spec fn apply_writes(regs: Seq<u8>, w: Seq<(u8, u8)>) -> Seq<u8>
    decreases w.len(),
{
    if w.len() == 0 {
        regs
    } else {
        let before = apply_writes(regs, w.drop_last());
        before.update(w.last().0 as int, w.last().1)
    }
}

/// Shadow copy of the SID register file; `update` emits only the registers
/// that changed since the previous image.
pub struct RegDiff {
    shadow: [u8; 32],
}

impl View for RegDiff {
    type V = Seq<u8>;

    closed spec fn view(&self) -> Seq<u8> {
        self.shadow@
    }
}

impl RegDiff {
    /// A shadow in which every register reads zero.
    pub fn new() -> (r: Self)
        ensures
            r@ == Seq::new(32, |i: int| 0u8),
    {
        RegDiff { shadow: [0u8; 32] }
    }

    /// Forgets the shadow: every register reads zero again.
    pub fn reset(&mut self)
        ensures
            final(self)@ == Seq::new(32, |i: int| 0u8),
    {
        self.shadow = [0u8; 32];
    }

    /// Pushes `(reg, val)` for every register of `img` that differs from the
    /// shadow, in register order, then adopts `img` as the new shadow.
    /// Writes that no longer fit in the list are dropped.
    pub fn update(&mut self, img: &[u8; 32], out: &mut heapless::Vec<(u8, u8), 32>)
        ensures
            final(self)@ == img@,
            write_list_items(*final(out)) == fill_capped(
                write_list_items(*old(out)),
                diff_pairs(old(self)@, img@),
            ),
            write_list_items(*old(out)).len() == 0 ==> write_list_items(*final(out))
                == diff_pairs(old(self)@, img@),
    {
        let ghost shadow0 = self.shadow@;
        let ghost items0 = write_list_items(*out);
        let mut reg: u8 = 0;
        while reg < 32
            invariant
                reg <= 32,
                self.shadow@.len() == 32,
                img@.len() == 32,
                shadow0.len() == 32,
                forall|i: int| 0 <= i < reg ==> self.shadow@[i] == img@[i],
                forall|i: int| reg <= i < 32 ==> self.shadow@[i] == shadow0[i],
                write_list_items(*out) == fill_capped(items0, diff_upto(shadow0, img@, reg as int)),
            decreases 32 - reg,
        {
            let v = img[reg as usize];
            let ghost before = diff_upto(shadow0, img@, reg as int);
            if v != self.shadow[reg as usize] {
                self.shadow[reg as usize] = v;
                let _ = write_list_push(out, (reg, v));
                proof {
                    let after = diff_upto(shadow0, img@, reg as int + 1);
                    assert(after == before.push((reg, v)));
                    assert(after.drop_last() =~= before);
                }
            }
            reg = reg + 1;
        }
        proof {
            assert(self.shadow@ =~= img@);
            if items0.len() == 0 {
                lemma_diff_upto_len(shadow0, img@, 32);
                lemma_fill_fits(items0, diff_pairs(shadow0, img@));
            }
        }
    }
}

impl Default for RegDiff {
    fn default() -> (r: Self)
        ensures
            r@ == Seq::new(32, |i: int| 0u8),
    {
        Self::new()
    }
}

proof fn lemma_diff_upto_len(shadow: Seq<u8>, img: Seq<u8>, n: int)
    requires
        0 <= n,
    ensures
        diff_upto(shadow, img, n).len() <= n,
    decreases n,
{
    if n > 0 {
        lemma_diff_upto_len(shadow, img, n - 1);
    }
}

proof fn lemma_fill_fits(s: Seq<(u8, u8)>, d: Seq<(u8, u8)>)
    requires
        s.len() + d.len() <= WRITE_LIST_CAP,
    ensures
        fill_capped(s, d) == s + d,
    decreases d.len(),
{
    if d.len() > 0 {
        lemma_fill_fits(s, d.drop_last());
        assert(s + d.drop_last() + seq![d.last()] =~= s + d);
    }
}

proof fn lemma_apply_diff_upto(shadow: Seq<u8>, img: Seq<u8>, n: int)
    requires
        shadow.len() == 32,
        img.len() == 32,
        0 <= n <= 32,
    ensures
        apply_writes(shadow, diff_upto(shadow, img, n)) =~= img.take(n) + shadow.skip(n),
    decreases n,
{
    if n > 0 {
        lemma_apply_diff_upto(shadow, img, n - 1);
        let before = diff_upto(shadow, img, n - 1);
        if img[n - 1] != shadow[n - 1] {
            let w = before.push(((n - 1) as u8, img[n - 1]));
            assert(w.drop_last() =~= before);
        }
    }
}

/// Performing the writes that `update` emits on the old shadow yields the new
/// image exactly: the write list is a faithful delta.
pub proof fn lemma_writes_replay_image(shadow: Seq<u8>, img: Seq<u8>)
    requires
        shadow.len() == 32,
        img.len() == 32,
    ensures
        apply_writes(shadow, diff_pairs(shadow, img)) == img,
{
    lemma_apply_diff_upto(shadow, img, 32);
    assert(img.take(32) + shadow.skip(32) =~= img);
}

proof fn lemma_diff_upto_same(img: Seq<u8>, n: int)
    requires
        0 <= n,
    ensures
        diff_upto(img, img, n) == Seq::<(u8, u8)>::empty(),
    decreases n,
{
    if n > 0 {
        lemma_diff_upto_same(img, n - 1);
    }
}

/// An image identical to the shadow produces no writes, so a second
/// `update` with the same image emits nothing.
pub proof fn lemma_unchanged_image_emits_nothing(img: Seq<u8>)
    ensures
        diff_pairs(img, img) == Seq::<(u8, u8)>::empty(),
{
    lemma_diff_upto_same(img, 32);
}

} // verus!
