//! Whole-bank import: validate a bank file completely, then replace the
//! 128-slot user bank with its contents.
//!
//! Pass 1 checks every message before any flash write. The erase of the
//! slots the file does not name and the per-message saves then run as one
//! sweep, so an interrupted import leaves only valid or empty slots.
use vstd::prelude::*;
use crate::mbsid::nor_store::{NorStore, nor_erase};
use crate::mbsid::patch_store::{
    UserPatchStore, N_SLOTS, SLOT_SIZE, HEADER_LEN, slot_offset, saved_image, slot_holds_patch, slot_payload,
    slot_header, lemma_saved_slot_loads,
};
use crate::mbsid::usb_patch::{
    validate_bank, BankScan, ScanStep, BankScanModel, scan_bytes, scan_step, scan_start, scan_accepts, names_slot,
    bank_counts_agree, lemma_scan_failed_sticks,
};
use crate::mbsid::sysex_capture::{CaptureModel, State};

verus! {

/// How a bank import ended.
#[derive(Clone, Copy, PartialEq, Eq, Debug, Structural)]
pub enum ImportOutcome {
    /// The file was rejected before anything was written.
    BadFile,
    /// The import started but stopped (a flash error, or the second read of
    /// the file did not hold a valid bank); every slot is valid or empty.
    Failed,
    /// The bank now holds the file's patches; this many of them.
    Imported(u8),
}

/// The flash with the sector of every slot below `n` that no message in
/// `msgs` names erased.
pub open spec fn erase_unlisted(m: Seq<u8>, base: u32, msgs: Seq<(u8, Seq<u8>)>, n: int) -> Seq<u8>
    decreases n,
{
    if n <= 0 {
        m
    } else {
        let prev = erase_unlisted(m, base, msgs, n - 1);
        let k = (n - 1) as u8;
        if names_slot(msgs, k) {
            prev
        } else {
            nor_erase(prev, slot_offset(base, k), slot_offset(base, k) + SLOT_SIZE)
        }
    }
}

/// The flash after saving every message of `msgs`, in order, into its slot.
pub open spec fn saved_all(m: Seq<u8>, base: u32, msgs: Seq<(u8, Seq<u8>)>) -> Seq<u8>
    decreases msgs.len(),
{
    if msgs.len() == 0 {
        m
    } else {
        saved_image(saved_all(m, base, msgs.drop_last()), slot_offset(base, msgs.last().0), msgs.last().1)
    }
}

/// The flash after a complete import: the slots `listed` does not name are
/// erased, then the messages `saved` are saved in order.
pub open spec fn import_image(m: Seq<u8>, base: u32, listed: Seq<(u8, Seq<u8>)>, saved: Seq<(u8, Seq<u8>)>) -> Seq<u8> {
    saved_all(erase_unlisted(m, base, listed, N_SLOTS as int), base, saved)
}

/// Replaces the user bank with the bank file, read twice: `first` is
/// validated in full before anything is written; `second` is streamed into
/// the store. A rejected file leaves the flash untouched.
#[verifier::rlimit(40)]
pub fn import_bank<F: NorStore>(first: &[u8], second: &[u8], store: &mut UserPatchStore<F>) -> (r: ImportOutcome)
    requires
        old(store).wf(),
    ensures
        final(store).wf(),
        final(store).base() == old(store).base(),
        final(store).contents().len() == old(store).contents().len(),
        (r == ImportOutcome::BadFile) <==> !scan_accepts(scan_bytes(first@, true)),
        r == ImportOutcome::BadFile ==> final(store).contents() == old(store).contents(),
        old(store).reliable() ==> final(store).reliable(),
        old(store).reliable() && old(store).base() + N_SLOTS * SLOT_SIZE <= old(store).contents().len() && scan_accepts(
            scan_bytes(first@, true),
        ) && scan_accepts(scan_bytes(second@, false)) ==> r == ImportOutcome::Imported(
            scan_bytes(first@, true).count as u8,
        ),
        r matches ImportOutcome::Imported(c) ==> {
            &&& c == scan_bytes(first@, true).count
            &&& scan_accepts(scan_bytes(second@, false))
            &&& final(store).contents() == import_image(
                old(store).contents(),
                old(store).base(),
                scan_bytes(first@, true).msgs,
                scan_bytes(second@, false).msgs,
            )
        },
{
    let sum = match validate_bank(first) {
        None => {
            return ImportOutcome::BadFile;
        },
        Some(s) => s,
    };
    let ghost m0 = store.contents();
    let ghost base = store.base();
    let ghost listed = scan_bytes(first@, true).msgs;
    let ghost rel = old(store).reliable();
    let ghost fits = base + N_SLOTS * SLOT_SIZE <= m0.len();
    let mut slot: u8 = 0;
    while slot < N_SLOTS
        invariant
            slot <= N_SLOTS,
            store.wf(),
            rel == old(store).reliable(),
            fits == (base + N_SLOTS * SLOT_SIZE <= m0.len()),
            rel ==> store.reliable(),
            store.base() == base,
            store.contents().len() == m0.len(),
            store.contents() == erase_unlisted(m0, base, listed, slot as int),
            base == old(store).base(),
            m0 == old(store).contents(),
            forall|k: int| 0 <= k < 128 ==> (sum.marked(k) <==> names_slot(listed, k as u8)),
            scan_accepts(scan_bytes(first@, true)),
        decreases N_SLOTS - slot,
    {
        if !sum.has(slot) {
            if store.erase_slot(slot).is_err() {
                return ImportOutcome::Failed;
            }
        }
        slot = slot + 1;
    }
    let ghost m1 = store.contents();
    let mut scan = BankScan::new();
    let mut i: usize = 0;
    proof {
        assert(second@.take(0) =~= Seq::<u8>::empty());
    }
    while i < second.len()
        invariant
            i <= second@.len(),
            scan.wf(),
            store.wf(),
            store.base() == base,
            store.contents().len() == m0.len(),
            m1 == import_image(m0, base, listed, Seq::empty()),
            base == old(store).base(),
            m0 == old(store).contents(),
            rel == old(store).reliable(),
            fits == (base + N_SLOTS * SLOT_SIZE <= m0.len()),
            rel ==> store.reliable(),
            scan.count() <= 128,
            scan_accepts(scan_bytes(first@, true)),
            !scan_bytes(second@.take(i as int), false).failed,
            scan.capture() == scan_bytes(second@.take(i as int), false).cap,
            scan.count() == scan_bytes(second@.take(i as int), false).count,
            scan.starts() == scan_bytes(second@.take(i as int), false).starts,
            store.contents() == saved_all(m1, base, scan_bytes(second@.take(i as int), false).msgs),
        decreases second@.len() - i,
    {
        proof {
            assert(second@.take(i + 1).drop_last() =~= second@.take(i as int));
        }
        let ghost st = scan_bytes(second@.take(i as int), false);
        let ghost next = scan_bytes(second@.take(i + 1), false);
        match scan.feed(second[i]) {
            ScanStep::Continue => {},
            ScanStep::Patch(slot) => {
                let ghost pv = next.cap.patch;
                assert((pv & 0x7F) < 128) by (bit_vector);
                assert(next.msgs == st.msgs.push((slot, next.cap.buf)));
                assert(next.msgs.drop_last() =~= st.msgs);
                if store.save(slot, scan.data()).is_err() {
                    return ImportOutcome::Failed;
                }
            },
            ScanStep::TooMany => {
                proof {
                    assert(next.failed);
                    lemma_scan_failed_sticks(second@, i + 1, false);
                }
                return ImportOutcome::Failed;
            },
        }
        i = i + 1;
    }
    proof {
        assert(second@.take(i as int) =~= second@);
    }
    match scan.finish() {
        None => ImportOutcome::Failed,
        Some((count, starts)) => {
            if bank_counts_agree(count, starts) {
                ImportOutcome::Imported(sum.count)
            } else {
                ImportOutcome::Failed
            }
        },
    }
}

/// The shape every scan keeps: each message targets a slot below 128 and
/// carries a 512-byte body, one message per counted patch, and with
/// `no_repeats` no two messages share a slot.
proof fn lemma_scan_shape(bytes: Seq<u8>, no_repeats: bool)
    ensures
        scan_bytes(bytes, no_repeats).cap.wf(),
        scan_bytes(bytes, no_repeats).count == scan_bytes(bytes, no_repeats).msgs.len(),
        forall|j: int| 0 <= j < scan_bytes(bytes, no_repeats).msgs.len() ==> {
            &&& #[trigger] scan_bytes(bytes, no_repeats).msgs[j].0 < 128
            &&& scan_bytes(bytes, no_repeats).msgs[j].1.len() == 512
        },
        no_repeats ==> forall|i: int, j: int|
            0 <= i < j < scan_bytes(bytes, no_repeats).msgs.len() ==> #[trigger] scan_bytes(bytes, no_repeats).msgs[i].0
                != #[trigger] scan_bytes(bytes, no_repeats).msgs[j].0,
    decreases bytes.len(),
{
    if bytes.len() > 0 {
        let prev = bytes.drop_last();
        lemma_scan_shape(prev, no_repeats);
        let st = scan_bytes(prev, no_repeats);
        let b = bytes.last();
        let (cap, got) = st.cap.step(b);
        let next = scan_bytes(bytes, no_repeats);
        lemma_step_wf(st.cap, b);
        assert(cap.buf.len() == 512);
        if !st.failed && got && st.count + 1 <= 128 && !(no_repeats && names_slot(st.msgs, cap.patch & 0x7F)) {
            let pv = cap.patch;
            assert((pv & 0x7F) < 128) by (bit_vector);
            assert(next.msgs == st.msgs.push((cap.patch & 0x7F, cap.buf)));
            assert forall|j: int| 0 <= j < next.msgs.len() implies #[trigger] next.msgs[j].0 < 128
                && next.msgs[j].1.len() == 512 by {
                if j < st.msgs.len() {
                    assert(next.msgs[j] == st.msgs[j]);
                }
            }
            if no_repeats {
                assert forall|i: int, j: int| 0 <= i < j < next.msgs.len() implies #[trigger] next.msgs[i].0
                    != #[trigger] next.msgs[j].0 by {
                    assert(next.msgs[i] == st.msgs[i]);
                    if j < st.msgs.len() {
                        assert(next.msgs[j] == st.msgs[j]);
                    } else {
                        assert(!names_slot(st.msgs, cap.patch & 0x7F));
                        assert(st.msgs[i].0 != cap.patch & 0x7F);
                    }
                }
            }
        }
    }
}

proof fn lemma_step_wf(c: CaptureModel, b: u8)
    requires
        c.wf(),
    ensures
        c.step(b).0.wf(),
{
    if b < 0x80 && c.state == State::Data {
        assert(c.data_ix / 2 < 512);
        assert((c.data_ix + 1) % 2 == 1 <==> c.data_ix % 2 == 0);
    }
}

/// While the repeat-checking scan of a file has not rejected it, the plain
/// scan of the same bytes is the very same scan.
proof fn lemma_scans_agree(bytes: Seq<u8>)
    requires
        !scan_bytes(bytes, true).failed,
    ensures
        scan_bytes(bytes, false) == scan_bytes(bytes, true),
    decreases bytes.len(),
{
    if bytes.len() > 0 {
        let prev = bytes.drop_last();
        if scan_bytes(prev, true).failed {
            assert(bytes.take(prev.len() as int) =~= prev);
            lemma_scan_failed_sticks(bytes, prev.len() as int, true);
        }
        lemma_scans_agree(prev);
    }
}

/// Erasing the unlisted slots sets their sectors to `0xFF` and leaves every
/// other byte alone.
proof fn lemma_erase_unlisted(m: Seq<u8>, base: u32, msgs: Seq<(u8, Seq<u8>)>, n: int, i: int)
    requires
        0 <= n <= 128,
        base + 128 * SLOT_SIZE <= m.len(),
        0 <= i < m.len(),
    ensures
        erase_unlisted(m, base, msgs, n).len() == m.len(),
        forall|k: int|
            0 <= k < n && !names_slot(msgs, k as u8) && #[trigger] slot_offset(base, k as u8) <= i < slot_offset(base, k as u8)
                + SLOT_SIZE ==> erase_unlisted(m, base, msgs, n)[i] == 0xFFu8,
        (forall|k: int|
            0 <= k < n && !names_slot(msgs, k as u8) ==> !(#[trigger] slot_offset(base, k as u8) <= i < slot_offset(base, k as u8)
                + SLOT_SIZE)) ==> erase_unlisted(m, base, msgs, n)[i] == m[i],
    decreases n,
{
    if n > 0 {
        lemma_erase_unlisted(m, base, msgs, n - 1, i);
        let k = (n - 1) as u8;
        let prev = erase_unlisted(m, base, msgs, n - 1);
        assert(((n - 1) as u8) as int == n - 1);
        if !names_slot(msgs, k) {
            assert(nor_erase(prev, slot_offset(base, k), slot_offset(base, k) + SLOT_SIZE).len() == prev.len());
        }
        assert forall|q: int|
            0 <= q < n && !names_slot(msgs, q as u8) && #[trigger] slot_offset(base, q as u8) <= i < slot_offset(base, q as u8)
                + SLOT_SIZE implies erase_unlisted(m, base, msgs, n)[i] == 0xFFu8 by {
            if q < n - 1 {
                if !names_slot(msgs, k) {
                    assert(nor_erase(prev, slot_offset(base, k), slot_offset(base, k) + SLOT_SIZE)[i] == 0xFFu8);
                }
            }
        }
        if forall|q: int|
            0 <= q < n && !names_slot(msgs, q as u8) ==> !(#[trigger] slot_offset(base, q as u8) <= i < slot_offset(base, q as u8)
                + SLOT_SIZE) {
            assert forall|q: int|
                0 <= q < n - 1 && !names_slot(msgs, q as u8) implies !(#[trigger] slot_offset(base, q as u8) <= i < slot_offset(base, q as u8)
                    + SLOT_SIZE) by {}
            if !names_slot(msgs, k) {
                assert(!(slot_offset(base, ((n - 1) as u8) as int as u8) <= i < slot_offset(base, ((n - 1) as u8) as int as u8) + SLOT_SIZE));
            }
        }
    }
}

/// Saving messages touches only the sectors of the slots they name.
proof fn lemma_saved_all_frame(m: Seq<u8>, base: u32, msgs: Seq<(u8, Seq<u8>)>, i: int)
    requires
        base + 128 * SLOT_SIZE <= m.len(),
        forall|j: int| 0 <= j < msgs.len() ==> #[trigger] msgs[j].0 < 128 && msgs[j].1.len() == 512,
        0 <= i < m.len(),
    ensures
        saved_all(m, base, msgs).len() == m.len(),
        (forall|j: int| 0 <= j < msgs.len() ==> !(slot_offset(base, #[trigger] msgs[j].0) <= i < slot_offset(base, msgs[j].0) + SLOT_SIZE))
            ==> saved_all(m, base, msgs)[i] == m[i],
    decreases msgs.len(),
{
    if msgs.len() > 0 {
        let d = msgs.drop_last();
        assert forall|j: int| 0 <= j < d.len() implies #[trigger] d[j].0 < 128 && d[j].1.len() == 512 by {
            assert(d[j] == msgs[j]);
        }
        lemma_saved_all_frame(m, base, d, i);
        let prev = saved_all(m, base, d);
        let a = slot_offset(base, msgs.last().0);
        assert(msgs.last() == msgs[msgs.len() - 1]);
        lemma_saved_slot_loads(prev, a, msgs.last().1);
        if forall|j: int| 0 <= j < msgs.len() ==> !(slot_offset(base, #[trigger] msgs[j].0) <= i < slot_offset(base, msgs[j].0) + SLOT_SIZE) {
            assert forall|j: int| 0 <= j < d.len() implies !(slot_offset(base, #[trigger] d[j].0) <= i < slot_offset(base, d[j].0) + SLOT_SIZE) by {
                assert(d[j] == msgs[j]);
            }
        }
    }
}

/// After the saves, each message's slot holds exactly that message's body,
/// when no two messages share a slot.
proof fn lemma_saved_all_holds(m: Seq<u8>, base: u32, msgs: Seq<(u8, Seq<u8>)>, j: int)
    requires
        base + 128 * SLOT_SIZE <= m.len(),
        forall|q: int| 0 <= q < msgs.len() ==> #[trigger] msgs[q].0 < 128 && msgs[q].1.len() == 512,
        forall|p: int, q: int| 0 <= p < q < msgs.len() ==> #[trigger] msgs[p].0 != #[trigger] msgs[q].0,
        0 <= j < msgs.len(),
    ensures
        slot_holds_patch(saved_all(m, base, msgs), slot_offset(base, msgs[j].0)),
        slot_payload(saved_all(m, base, msgs), slot_offset(base, msgs[j].0)) == msgs[j].1,
    decreases msgs.len(),
{
    let d = msgs.drop_last();
    assert forall|q: int| 0 <= q < d.len() implies #[trigger] d[q].0 < 128 && d[q].1.len() == 512 by {
        assert(d[q] == msgs[q]);
    }
    assert forall|p: int, q: int| 0 <= p < q < d.len() implies #[trigger] d[p].0 != #[trigger] d[q].0 by {
        assert(d[p] == msgs[p] && d[q] == msgs[q]);
    }
    lemma_saved_all_frame(m, base, d, 0);
    let prev = saved_all(m, base, d);
    let last = msgs[msgs.len() - 1];
    assert(msgs.last() == last);
    let a = slot_offset(base, last.0);
    lemma_saved_slot_loads(prev, a, last.1);
    let cur = saved_all(m, base, msgs);
    if j < msgs.len() - 1 {
        lemma_saved_all_holds(m, base, d, j);
        assert(d[j] == msgs[j]);
        let b = slot_offset(base, msgs[j].0);
        assert(msgs[j].0 != last.0);
        assert(cur.subrange(b, b + HEADER_LEN) =~= prev.subrange(b, b + HEADER_LEN));
        assert(cur.subrange(b + HEADER_LEN, b + HEADER_LEN + 512) =~= prev.subrange(b + HEADER_LEN, b + HEADER_LEN + 512));
    }
}

/// Importing a valid bank file, read back the same both times, replaces
/// the bank: every slot the file names holds that message's patch, and
/// every other slot reads back as empty.
pub proof fn lemma_import_replaces_bank(m: Seq<u8>, base: u32, bytes: Seq<u8>)
    requires
        scan_accepts(scan_bytes(bytes, true)),
        base + 128 * SLOT_SIZE <= m.len(),
    ensures
        forall|j: int| 0 <= j < scan_bytes(bytes, true).msgs.len() ==> {
            let msg = #[trigger] scan_bytes(bytes, true).msgs[j];
            &&& slot_holds_patch(
                import_image(m, base, scan_bytes(bytes, true).msgs, scan_bytes(bytes, false).msgs),
                slot_offset(base, msg.0),
            )
            &&& slot_payload(
                import_image(m, base, scan_bytes(bytes, true).msgs, scan_bytes(bytes, false).msgs),
                slot_offset(base, msg.0),
            ) == msg.1
        },
        forall|k: u8| k < 128 && !names_slot(scan_bytes(bytes, true).msgs, k) ==> #[trigger] slot_header(
            import_image(m, base, scan_bytes(bytes, true).msgs, scan_bytes(bytes, false).msgs),
            slot_offset(base, k),
        ) is None,
{
    lemma_scans_agree(bytes);
    lemma_scan_shape(bytes, true);
    let msgs = scan_bytes(bytes, true).msgs;
    let f1 = erase_unlisted(m, base, msgs, 128);
    lemma_erase_unlisted(m, base, msgs, 128, 0);
    let f = import_image(m, base, msgs, msgs);
    assert forall|j: int| 0 <= j < msgs.len() implies {
        &&& slot_holds_patch(f, slot_offset(base, (#[trigger] msgs[j]).0))
        &&& slot_payload(f, slot_offset(base, msgs[j].0)) == msgs[j].1
    } by {
        lemma_saved_all_holds(f1, base, msgs, j);
    }
    assert forall|k: u8| k < 128 && !names_slot(msgs, k) implies #[trigger] slot_header(f, slot_offset(base, k)) is None by {
        let a = slot_offset(base, k);
        lemma_erase_unlisted(m, base, msgs, 128, a);
        assert(slot_offset(base, (k as int) as u8) == a);
        lemma_saved_all_frame(f1, base, msgs, a);
        assert forall|j: int| 0 <= j < msgs.len() implies !(slot_offset(base, #[trigger] msgs[j].0) <= a < slot_offset(base, msgs[j].0) + SLOT_SIZE) by {
            assert(msgs[j].0 != k);
        }
        assert(f[a] == 0xFFu8);
        assert(f.subrange(a, a + HEADER_LEN)[0] == 0xFFu8);
    }
}

} // verus!
