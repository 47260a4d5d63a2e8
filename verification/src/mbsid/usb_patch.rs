//! USB-drive patch files: name filtering, SysEx / raw-512 parsing, SysEx
//! export encoding, and the whole-bank (BANK.SYX) message scanner.
//!
//! A patch file is either a standard MBSID v2 single-patch SysEx dump
//! (`*.SYX`, parsed in file mode) or a raw 512-byte `sid_patch_t`.
use vstd::prelude::*;
use crate::mbsid::sysex_capture::{
    SysexCapture, CaptureModel, State, run, patch_message, lemma_patch_message_capture,
    lemma_run_concat, nibbles, nibble_sum, lo_nibble, hi_nibble, expected_checksum, message_head,
    CMD_PATCH_WRITE, fresh_capture, first_capture, lemma_message_first_capture, lemma_nibbles_len,
};

verus! {

pub const MAX_FILES: usize = 64;

/// Upper bound on an accepted file: one 1036-byte single-patch dump with
/// slack for editors that pad.
pub const MAX_FILE_BYTES: usize = 2048;

/// Length of one encoded single-patch dump.
pub const SYX_LEN: usize = 1036;

/// ASCII upper-casing of one byte.
pub open spec fn ascii_upper(b: u8) -> u8 {
    if 0x61 <= b <= 0x7A { (b - 32) as u8 } else { b }
}

/// `name` ends in `ext` (compared ASCII case-insensitively).
pub open spec fn has_extension(name: Seq<u8>, ext: Seq<u8>) -> bool {
    &&& name.len() >= ext.len()
    &&& forall|i: int| 0 <= i < ext.len() ==>
        #[trigger] ascii_upper(name[name.len() - ext.len() + i]) == ascii_upper(ext[i])
}

/// The extension ".SYX".
pub open spec fn syx_ext() -> Seq<u8> {
    seq![0x2Eu8, 0x53u8, 0x59u8, 0x58u8]
}

fn exec_ascii_upper(b: u8) -> (r: u8)
    ensures
        r == ascii_upper(b),
{
    if 0x61 <= b && b <= 0x7A { b - 32 } else { b }
}

/// Case-insensitive suffix test of a short file name against a 4-byte
/// extension such as ".SYX" or ".SID".
pub fn ends_with_ext(name: &[u8], e0: u8, e1: u8, e2: u8, e3: u8) -> (r: bool)
    ensures
        r == has_extension(name@, seq![e0, e1, e2, e3]),
{
    let ghost ext = seq![e0, e1, e2, e3];
    let n = name.len();
    if n < 4 {
        return false;
    }
    let mut i: usize = 0;
    while i < 4
        invariant
            n == name@.len(),
            n >= 4,
            i <= 4,
            ext == seq![e0, e1, e2, e3],
            forall|j: int| 0 <= j < i ==> #[trigger] ascii_upper(name@[n - 4 + j]) == ascii_upper(ext[j]),
        decreases 4 - i,
    {
        let e = if i == 0 { e0 } else if i == 1 { e1 } else if i == 2 { e2 } else { e3 };
        assert(e == ext[i as int]);
        if exec_ascii_upper(name[n - 4 + i]) != exec_ascii_upper(e) {
            assert(!(ascii_upper(name@[n - 4 + i]) == ascii_upper(ext[i as int])));
            return false;
        }
        i = i + 1;
    }
    true
}

/// True if `name` ends in a case-insensitive ".SYX".
pub fn is_syx_name(name: &[u8]) -> (r: bool)
    ensures
        r == has_extension(name@, syx_ext()),
{
    ends_with_ext(name, 0x2E, 0x53, 0x59, 0x58)
}

/// Whether a directory entry of this name and size is listed as a patch file.
pub open spec fn is_candidate(name: Seq<u8>, len: u64) -> bool {
    (has_extension(name, syx_ext()) && (len as usize) <= MAX_FILE_BYTES) || len == 512
}

pub fn candidate(name: &[u8], len: u64) -> (r: bool)
    ensures
        r == is_candidate(name@, len),
{
    (is_syx_name(name) && (len as usize) <= MAX_FILE_BYTES) || len == 512
}

/// The 512-byte patch image a file of these bytes holds, if any: a raw
/// 512-byte file verbatim, otherwise the first valid dump in it.
pub open spec fn patch_file_body(bytes: Seq<u8>) -> Option<Seq<u8>> {
    if bytes.len() == 512 {
        Some(bytes)
    } else {
        first_capture(fresh_capture(true), bytes)
    }
}

/// Parse file bytes into a 512-byte `sid_patch_t` image. `dst` is written
/// only on success.
pub fn parse_patch_file(bytes: &[u8], dst: &mut [u8; 512]) -> (r: bool)
    ensures
        r == patch_file_body(bytes@) is Some,
        r ==> final(dst)@ == patch_file_body(bytes@)->Some_0,
        !r ==> final(dst)@ == old(dst)@,
{
    if bytes.len() == 512 {
        let mut i: usize = 0;
        while i < 512
            invariant
                bytes@.len() == 512,
                i <= 512,
                forall|j: int| 0 <= j < i ==> dst@[j] == bytes@[j],
            decreases 512 - i,
        {
            dst[i] = bytes[i];
            i = i + 1;
        }
        assert(dst@ =~= bytes@);
        return true;
    }
    let mut cap = SysexCapture::file_mode();
    assert(bytes@.skip(0) =~= bytes@);
    let mut i: usize = 0;
    while i < bytes.len()
        invariant
            bytes@.len() != 512,
            i <= bytes@.len(),
            cap@.wf(),
            first_capture(fresh_capture(true), bytes@) == first_capture(cap@, bytes@.skip(i as int)),
            dst@ == old(dst)@,
        decreases bytes@.len() - i,
    {
        let ghost before = cap@;
        let got = cap.feed(bytes[i]);
        assert(bytes@.skip(i as int).drop_first() =~= bytes@.skip(i + 1));
        if got {
            let data = cap.data();
            let mut k: usize = 0;
            while k < 512
                invariant
                    k <= 512,
                    data@.len() == 512,
                    forall|j: int| 0 <= j < k ==> dst@[j] == data@[j],
                decreases 512 - k,
            {
                dst[k] = data[k];
                k = k + 1;
            }
            assert(dst@ =~= data@);
            return true;
        }
        i = i + 1;
    }
    false
}

/// Encode `patch` as a standard MBSID v2 single-patch dump: Bank Write,
/// bank 1 (User), so the exported file re-sent over MIDI lands in the user
/// bank at `slot & 0x7F`.
pub fn encode_syx(patch: &[u8; 512], slot: u8, out: &mut [u8; 1036])
    ensures
        final(out)@ == patch_message(0x00, 0x01, slot & 0x7F, patch@),
{
    out[0] = 0xF0;
    out[1] = 0x00;
    out[2] = 0x00;
    out[3] = 0x7E;
    out[4] = 0x4B;
    out[5] = 0x00;
    out[6] = 0x02;
    out[7] = 0x00;
    out[8] = 0x01;
    out[9] = slot & 0x7F;
    let ghost head = out@.take(10);
    assert(head =~= message_head(0x00, 0x01, slot & 0x7F));
    let mut sum: u32 = 0;
    let mut i: usize = 0;
    while i < 512
        invariant
            i <= 512,
            out@.len() == 1036,
            out@.take(10) == head,
            out@.subrange(10, 10 + 2 * i) == nibbles(patch@.take(i as int)),
            sum == nibble_sum(patch@.take(i as int)),
            sum <= 30 * i,
        decreases 512 - i,
    {
        let d = patch[i];
        let lo = d & 0x0F;
        let hi = (d >> 4u8) & 0x0F;
        assert(lo < 16 && hi < 16) by {
            assert(d & 0x0F < 16 && (d >> 4u8) & 0x0F < 16) by (bit_vector);
        }
        let ghost prev = out@;
        out[10 + 2 * i] = lo;
        out[11 + 2 * i] = hi;
        sum = sum + (lo + hi) as u32;
        proof {
            let t = patch@.take(i + 1);
            assert(t.drop_last() =~= patch@.take(i as int));
            assert(t.last() == d);
            assert(out@.subrange(10, 10 + 2 * (i + 1)) =~= prev.subrange(10, 10 + 2 * i) + seq![lo, hi]);
            assert(out@.take(10) =~= prev.take(10));
        }
        i = i + 1;
    }
    let cs = ((128 - (sum % 128)) % 128) as u8;
    out[1034] = cs;
    out[1035] = 0xF7;
    proof {
        assert(patch@.take(512) =~= patch@);
        let msg = patch_message(0x00, 0x01, slot & 0x7F, patch@);
        assert(nibbles(patch@).len() == 1024) by {
            lemma_nibbles_len(patch@);
        }
        assert(out@ =~= msg) by {
            assert(msg == message_head(0x00, 0x01, slot & 0x7F) + nibbles(patch@)
                + seq![expected_checksum(nibble_sum(patch@)), 0xF7u8]);
            assert forall|j: int| 0 <= j < 1036 implies out@[j] == msg[j] by {
                if j < 10 {
                    assert(out@[j] == out@.take(10)[j]);
                } else if j < 1034 {
                    assert(out@[j] == out@.subrange(10, 1034)[j - 10]);
                }
            }
        }
    }
}

/// Law: an exported dump parses back to the exact patch it was made from.
pub proof fn lemma_export_roundtrip(patch: Seq<u8>, slot: u8)
    requires
        patch.len() == 512,
    ensures
        patch_file_body(patch_message(0x00, 0x01, slot & 0x7F, patch)) == Some(patch),
{
    assert(slot & 0x7F < 0x80) by (bit_vector);
    lemma_nibbles_len(patch);
    lemma_message_first_capture(fresh_capture(true), 0x00, 0x01, slot & 0x7F, patch);
}

/// Pass-1 result of a bank file: how many valid messages, and which slots
/// they target.
pub struct BankSummary {
    pub count: u8,
    /// Bitmap, bit n = slot n present.
    pub slots: [u8; 16],
}

impl BankSummary {
    /// Whether bit `slot` of the bitmap is set.
    pub open spec fn marked(self, slot: int) -> bool {
        (self.slots@[slot / 8] >> ((slot % 8) as u8)) & 1 == 1
    }

    /// No slots, no messages.
    pub fn empty() -> (r: Self)
        ensures
            r.count == 0,
            forall|s: int| 0 <= s < 128 ==> !r.marked(s),
    {
        let r = BankSummary { count: 0, slots: [0u8; 16] };
        assert forall|s: int| 0 <= s < 128 implies !r.marked(s) by {
            assert(r.slots@[s / 8] == 0);
            let k = (s % 8) as u8;
            assert((0u8 >> k) & 1 == 0) by (bit_vector);
        }
        r
    }

    pub fn has(&self, slot: u8) -> (r: bool)
        requires
            slot < 128,
        ensures
            r == self.marked(slot as int),
    {
        let ix = (slot >> 3u8) as usize;
        let bit = slot & 7;
        assert(slot >> 3u8 == slot / 8 && slot & 7 == slot % 8) by (bit_vector);
        let b = self.slots[ix];
        assert((b & (1u8 << bit) != 0) == ((b >> bit) & 1 == 1)) by (bit_vector)
            requires bit < 8;
        self.slots[ix] & (1u8 << bit) != 0
    }

    /// Record one message for `slot`. Refuses (returns false, nothing
    /// changed) a slot that is already present: a bank file must name each
    /// slot at most once.
    pub fn add_slot(&mut self, slot: u8) -> (r: bool)
        requires
            slot < 128,
        ensures
            r == !old(self).marked(slot as int),
            final(self).count == old(self).count,
            final(self).marked(slot as int),
            forall|s: int| 0 <= s < 128 && s != slot ==> final(self).marked(s) == old(self).marked(s),
    {
        if self.has(slot) {
            return false;
        }
        let ix = (slot >> 3u8) as usize;
        let bit = slot & 7;
        assert(slot >> 3u8 == slot / 8 && slot & 7 == slot % 8) by (bit_vector);
        let ghost old_self = *self;
        let b = self.slots[ix];
        self.slots[ix] = b | (1u8 << bit);
        proof {
            let nb = b | (1u8 << bit);
            assert((nb >> bit) & 1 == 1) by (bit_vector)
                requires bit < 8, nb == b | (1u8 << bit);
            assert forall|s: int| 0 <= s < 128 && s != slot implies self.marked(s) == old_self.marked(s) by {
                if s / 8 == ix as int {
                    let k = (s % 8) as u8;
                    assert(k != bit);
                    assert(((nb >> k) & 1) == ((b >> k) & 1)) by (bit_vector)
                        requires bit < 8, k < 8, k != bit, nb == b | (1u8 << bit);
                }
            }
        }
        true
    }
}

/// What one byte of a bank file did to the scan.
#[derive(PartialEq, Eq, Structural)]
pub enum ScanStep {
    /// Nothing complete yet.
    Continue,
    /// A valid message for this slot just completed; its body is `data()`.
    Patch(u8),
    /// More than 128 valid messages: the file is not a single bank.
    TooMany,
}

/// Streaming scanner for a whole-bank file: every byte goes through a
/// file-mode capture parser; valid messages and message starts (F0 bytes)
/// are counted so that a skipped invalid message can be detected.
pub struct BankScan {
    cap: SysexCapture,
    count: u16,
    starts: u16,
}

impl BankScan {
    pub closed spec fn capture(self) -> CaptureModel {
        self.cap@
    }

    /// Valid messages seen so far.
    pub closed spec fn count(self) -> int {
        self.count as int
    }

    /// F0 bytes seen so far (wrapping at 2^16).
    pub closed spec fn starts(self) -> u16 {
        self.starts
    }

    pub closed spec fn wf(self) -> bool {
        self.cap@.wf() && self.cap@.file_mode && self.count <= 128
    }

    pub fn new() -> (r: Self)
        ensures
            r.wf(),
            r.capture() == fresh_capture(true),
            r.count() == 0,
            r.starts() == 0,
    {
        BankScan { cap: SysexCapture::file_mode(), count: 0, starts: 0 }
    }

    /// Feed one byte of the bank file.
    pub fn feed(&mut self, b: u8) -> (r: ScanStep)
        requires
            old(self).wf(),
        ensures
            final(self).capture() == old(self).capture().step(b).0,
            final(self).starts() == (old(self).starts() + if b == 0xF0 { 1int } else { 0int }) % 0x10000,
            old(self).capture().step(b).1 ==> final(self).count() == old(self).count() + 1,
            !old(self).capture().step(b).1 ==> final(self).count() == old(self).count() && r == ScanStep::Continue,
            old(self).capture().step(b).1 && old(self).count() < 128 ==>
                r == ScanStep::Patch(final(self).capture().patch & 0x7F),
            old(self).capture().step(b).1 && old(self).count() == 128 ==> r == ScanStep::TooMany,
            r != ScanStep::TooMany ==> final(self).wf(),
    {
        if b == 0xF0 {
            self.starts = self.starts.wrapping_add(1);
        }
        if self.cap.feed(b) {
            self.count = self.count + 1;
            if self.count > 128 {
                return ScanStep::TooMany;
            }
            return ScanStep::Patch(self.cap.slot());
        }
        ScanStep::Continue
    }

    /// Body of the message that just completed.
    pub fn data(&self) -> (r: &[u8; 512])
        ensures
            r@ == self.capture().buf,
    {
        self.cap.data()
    }

    /// At end of file: `(valid messages, message starts)`, or None when the
    /// file ended mid-message or held no valid message.
    pub fn finish(&self) -> (r: Option<(u8, u16)>)
        requires
            self.wf(),
        ensures
            r is None <==> (self.capture().state != State::Idle || self.capture().hdr_ix != 0 || self.count() == 0),
            r matches Some((c, s)) ==> c == self.count() && s == self.starts(),
    {
        if self.cap.in_message() || self.count == 0 {
            return None;
        }
        Some((self.count as u8, self.starts))
    }
}

/// A bank file is valid only if every F0-framed message in it parsed valid
/// and complete: the two counts must agree.
pub fn bank_counts_agree(count: u8, starts: u16) -> (r: bool)
    ensures
        r == (starts == count as u16),
{
    starts == count as u16
}

/// The state of a whole-bank scan after some prefix of a bank file: the
/// capture parser, the valid messages and message starts counted, the
/// `(slot, body)` of every valid message in order, and whether the scan has
/// already rejected the file.
pub struct BankScanModel {
    pub cap: CaptureModel,
    pub count: int,
    pub starts: int,
    pub msgs: Seq<(u8, Seq<u8>)>,
    pub failed: bool,
}

/// Some message in `msgs` targets `slot`.
pub open spec fn names_slot(msgs: Seq<(u8, Seq<u8>)>, slot: u8) -> bool {
    exists|j: int| 0 <= j < msgs.len() && #[trigger] msgs[j].0 == slot
}

/// The scan before any byte.
pub open spec fn scan_start() -> BankScanModel {
    BankScanModel { cap: fresh_capture(true), count: 0, starts: 0, msgs: Seq::empty(), failed: false }
}

/// One byte of a bank file. A 129th valid message rejects the file, and so
/// does a second message for the same slot when `no_repeats` is set.
pub open spec fn scan_step(st: BankScanModel, b: u8, no_repeats: bool) -> BankScanModel {
    if st.failed {
        st
    } else {
        let starts = if b == 0xF0 { (st.starts + 1) % 0x10000 } else { st.starts };
        let (cap, got) = st.cap.step(b);
        if !got {
            BankScanModel { cap, starts, ..st }
        } else if st.count + 1 > 128 {
            BankScanModel { cap, starts, failed: true, ..st }
        } else if no_repeats && names_slot(st.msgs, cap.patch & 0x7F) {
            BankScanModel { cap, starts, failed: true, ..st }
        } else {
            BankScanModel { cap, starts, count: st.count + 1, msgs: st.msgs.push((cap.patch & 0x7F, cap.buf)), ..st }
        }
    }
}

/// The scan after every byte of `bytes`.
pub open spec fn scan_bytes(bytes: Seq<u8>, no_repeats: bool) -> BankScanModel
    decreases bytes.len(),
{
    if bytes.len() == 0 {
        scan_start()
    } else {
        scan_step(scan_bytes(bytes.drop_last(), no_repeats), bytes.last(), no_repeats)
    }
}

/// A scan that ends in a valid bank: nothing rejected, no message left
/// open, at least one valid message, and every message start belongs to a
/// valid message.
pub open spec fn scan_accepts(st: BankScanModel) -> bool {
    &&& !st.failed
    &&& st.cap.state == State::Idle
    &&& st.cap.hdr_ix == 0
    &&& st.count > 0
    &&& st.starts == st.count
}

/// A rejected scan stays rejected whatever follows.
pub proof fn lemma_scan_failed_sticks(bytes: Seq<u8>, i: int, no_repeats: bool)
    requires
        0 <= i <= bytes.len(),
        scan_bytes(bytes.take(i), no_repeats).failed,
    ensures
        scan_bytes(bytes, no_repeats).failed,
    decreases bytes.len() - i,
{
    if i < bytes.len() {
        assert(bytes.take(i + 1).drop_last() =~= bytes.take(i));
        lemma_scan_failed_sticks(bytes, i + 1, no_repeats);
    } else {
        assert(bytes.take(i) =~= bytes);
    }
}

proof fn lemma_scan_take_step(bytes: Seq<u8>, i: int, no_repeats: bool)
    requires
        0 <= i < bytes.len(),
    ensures
        scan_bytes(bytes.take(i + 1), no_repeats) == scan_step(scan_bytes(bytes.take(i), no_repeats), bytes[i], no_repeats),
{
    assert(bytes.take(i + 1).drop_last() =~= bytes.take(i));
}

/// Pass 1 of a bank import: checks a whole bank file without touching
/// anything. `None` on a structural failure, a bad checksum, a repeated
/// slot, more than 128 messages, a truncated tail or no message at all.
pub fn validate_bank(bytes: &[u8]) -> (r: Option<BankSummary>)
    ensures
        r is Some <==> scan_accepts(scan_bytes(bytes@, true)),
        r matches Some(s) ==> {
            &&& s.count == scan_bytes(bytes@, true).count
            &&& forall|k: int| 0 <= k < 128 ==> (s.marked(k) <==> names_slot(scan_bytes(bytes@, true).msgs, k as u8))
        },
{
    let mut scan = BankScan::new();
    let mut sum = BankSummary::empty();
    let mut i: usize = 0;
    proof {
        assert(bytes@.take(0) =~= Seq::<u8>::empty());
        assert forall|k: int| 0 <= k < 128 implies (sum.marked(k) <==> names_slot(Seq::<(u8, Seq<u8>)>::empty(), k as u8)) by {}
    }
    while i < bytes.len()
        invariant
            i <= bytes@.len(),
            scan.wf(),
            !scan_bytes(bytes@.take(i as int), true).failed,
            scan.capture() == scan_bytes(bytes@.take(i as int), true).cap,
            scan.count() == scan_bytes(bytes@.take(i as int), true).count,
            scan.starts() == scan_bytes(bytes@.take(i as int), true).starts,
            sum.count == 0,
            forall|k: int| 0 <= k < 128 ==> (sum.marked(k) <==> names_slot(scan_bytes(bytes@.take(i as int), true).msgs, k as u8)),
        decreases bytes@.len() - i,
    {
        let ghost st = scan_bytes(bytes@.take(i as int), true);
        proof {
            lemma_scan_take_step(bytes@, i as int, true);
        }
        let ghost next = scan_bytes(bytes@.take(i + 1), true);
        match scan.feed(bytes[i]) {
            ScanStep::Continue => {},
            ScanStep::Patch(slot) => {
                assert(slot == next.cap.patch & 0x7F);
                let ghost pv = next.cap.patch;
                assert((pv & 0x7F) < 128) by (bit_vector);
                assert(sum.marked(slot as int) <==> names_slot(st.msgs, slot));
                if !sum.add_slot(slot) {
                    assert(next.failed);
                    proof {
                        lemma_scan_failed_sticks(bytes@, i + 1, true);
                    }
                    return None;
                }
                proof {
                    assert(next.msgs == st.msgs.push((slot, next.cap.buf)));
                    assert forall|k: int| 0 <= k < 128 implies (sum.marked(k) <==> names_slot(next.msgs, k as u8)) by {
                        if names_slot(next.msgs, k as u8) && k != slot {
                            let j = choose|j: int| 0 <= j < next.msgs.len() && #[trigger] next.msgs[j].0 == k as u8;
                            assert(j < st.msgs.len());
                            assert(st.msgs[j].0 == k as u8);
                        }
                        if k == slot {
                            assert(next.msgs[st.msgs.len() as int].0 == slot);
                        }
                        if k != slot && sum.marked(k) {
                            assert(names_slot(st.msgs, k as u8));
                            let j = choose|j: int| 0 <= j < st.msgs.len() && #[trigger] st.msgs[j].0 == k as u8;
                            assert(next.msgs[j].0 == k as u8);
                        }
                    }
                }
            },
            ScanStep::TooMany => {
                assert(next.failed);
                proof {
                    lemma_scan_failed_sticks(bytes@, i + 1, true);
                }
                return None;
            },
        }
        i = i + 1;
    }
    proof {
        assert(bytes@.take(i as int) =~= bytes@);
    }
    let ghost fin = scan_bytes(bytes@, true);
    assert(scan.count() == fin.count);
    match scan.finish() {
        None => None,
        Some((count, starts)) => {
            if bank_counts_agree(count, starts) {
                let ghost before = sum;
                sum.count = count;
                assert forall|k: int| 0 <= k < 128 implies (sum.marked(k) <==> names_slot(fin.msgs, k as u8)) by {
                    assert(sum.marked(k) == before.marked(k));
                }
                Some(sum)
            } else {
                None
            }
        },
    }
}

} // verus!
