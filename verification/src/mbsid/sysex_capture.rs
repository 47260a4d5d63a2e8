//! Byte-at-a-time parser for MBSID SysEx Patch Write dumps.
//!
//! Accept-and-capture condition: cmd 0x02, type 0x00 (Bank Write, sid 0),
//! bank 1 (User; bank 0 is the read-only factory ROM), 1024 nibblized data
//! bytes, checksum (-sum & 0x7F), terminated by F7. Everything else is
//! skipped silently. In file-import mode the type and bank bytes are ignored.
use vstd::prelude::*;

verus! {

pub const CMD_PATCH_WRITE: u8 = 0x02;
pub const TYPE_BANK_WRITE_SID0: u8 = 0x00;
pub const USER_BANK: u8 = 0x01;
pub const DATA_NIBBLES: u16 = 1024;
pub const HEADER_LEN: u8 = 6;

/// The fixed six-byte SysEx header of an MBSID v2 message.
pub open spec fn header_byte(i: int) -> u8 {
    if i == 0 { 0xF0 } else if i == 3 { 0x7E } else if i == 4 { 0x4B } else { 0x00 }
}

fn exec_header_byte(i: u8) -> (r: u8)
    requires
        i < 6,
    ensures
        r == header_byte(i as int),
{
    if i == 0 { 0xF0 } else if i == 3 { 0x7E } else if i == 4 { 0x4B } else { 0x00 }
}

#[derive(Clone, Copy, PartialEq, Eq, Structural)]
pub enum State {
    /// Not in any message we care about; `hdr_ix` counts matched header bytes.
    Idle,
    Cmd,
    Type,
    Bank,
    Patch,
    Data,
    Checksum,
    /// Everything matched and the checksum is right: waiting for F7.
    Term,
    /// Inside a SysEx message that is not for us; wait for it to end.
    Skip,
}

/// Abstract state of a capture parser.
pub struct CaptureModel {
    pub state: State,
    pub hdr_ix: u8,
    pub buf: Seq<u8>,
    pub data_ix: u16,
    pub checksum: u8,
    pub lnibble: bool,
    pub bank: u8,
    pub patch: u8,
    pub file_mode: bool,
}

pub struct SysexCapture {
    state: State,
    hdr_ix: u8,
    buf: [u8; 512],
    data_ix: u16,
    checksum: u8,
    lnibble: bool,
    bank: u8,
    patch: u8,
    file_mode: bool,
}

impl View for SysexCapture {
    type V = CaptureModel;

    closed spec fn view(&self) -> CaptureModel {
        CaptureModel {
            state: self.state,
            hdr_ix: self.hdr_ix,
            buf: self.buf@,
            data_ix: self.data_ix,
            checksum: self.checksum,
            lnibble: self.lnibble,
            bank: self.bank,
            patch: self.patch,
            file_mode: self.file_mode,
        }
    }
}

/// The checksum byte that must follow data nibbles summing to `sum`.
pub open spec fn expected_checksum(sum: int) -> u8 {
    ((128 - (sum % 128)) % 128) as u8
}

impl CaptureModel {
    /// Internal consistency of a parser state.
    pub open spec fn wf(self) -> bool {
        &&& self.buf.len() == 512
        &&& self.hdr_ix <= 6
        &&& self.data_ix <= 1024
        &&& (self.state == State::Idle ==> self.hdr_ix < 6)
        &&& ((self.state == State::Bank || self.state == State::Patch) ==> self.data_ix == 0 && !self.lnibble)
        &&& (self.state == State::Data ==> self.data_ix < 1024 && self.lnibble == (self.data_ix % 2 == 1))
    }

    /// The parser with no message in progress.
    pub open spec fn idle(self) -> CaptureModel {
        CaptureModel { state: State::Idle, hdr_ix: 0, ..self }
    }

    /// Whether a complete message is accepted when its F7 arrives.
    pub open spec fn accepts(self) -> bool {
        self.state == State::Term && (self.file_mode || self.bank == USER_BANK)
    }

    /// One data byte (< 0x80) consumed by the message state machine.
    pub open spec fn data_step(self, b: u8) -> CaptureModel {
        match self.state {
            State::Idle => if self.hdr_ix == 0 {
                self
            } else if b == header_byte(self.hdr_ix as int) {
                let ix = (self.hdr_ix + 1) as u8;
                CaptureModel { hdr_ix: ix, state: if ix == 6 { State::Cmd } else { State::Idle }, ..self }
            } else {
                CaptureModel { state: State::Skip, ..self }
            },
            State::Cmd => CaptureModel {
                state: if b == CMD_PATCH_WRITE { State::Type } else { State::Skip },
                ..self
            },
            State::Type => if b == TYPE_BANK_WRITE_SID0 || self.file_mode {
                CaptureModel { state: State::Bank, data_ix: 0, checksum: 0, lnibble: false, ..self }
            } else {
                CaptureModel { state: State::Skip, ..self }
            },
            State::Bank => CaptureModel { bank: b, state: State::Patch, ..self },
            State::Patch => CaptureModel { patch: b, state: State::Data, ..self },
            State::Data => {
                let byte_ix = self.data_ix / 2;
                let nib = b & 0x0F;
                let buf = if !self.lnibble {
                    self.buf.update(byte_ix as int, nib)
                } else {
                    self.buf.update(byte_ix as int, self.buf[byte_ix as int] | ((nib << 4u8) as u8))
                };
                let ix = (self.data_ix + 1) as u16;
                CaptureModel {
                    buf,
                    lnibble: !self.lnibble,
                    data_ix: ix,
                    checksum: ((self.checksum + b) % 256) as u8,
                    state: if ix == DATA_NIBBLES { State::Checksum } else { State::Data },
                    ..self
                }
            },
            State::Checksum => CaptureModel {
                state: if b == expected_checksum(self.checksum as int) { State::Term } else { State::Skip },
                ..self
            },
            State::Term => CaptureModel { state: State::Skip, ..self },
            State::Skip => self,
        }
    }

    /// One raw stream byte: the new parser state and whether a patch was captured.
    pub open spec fn step(self, b: u8) -> (CaptureModel, bool) {
        if b >= 0xF8 {
            (self, false)
        } else if b == 0xF0 {
            (CaptureModel { state: State::Idle, hdr_ix: 1, ..self }, false)
        } else if b >= 0x80 {
            (self.idle(), b == 0xF7 && self.accepts())
        } else {
            (self.data_step(b), false)
        }
    }
}

/// A parser state as `SysexCapture::with_mode` builds it.
pub open spec fn fresh_capture(file_mode: bool) -> CaptureModel {
    CaptureModel {
        state: State::Idle,
        hdr_ix: 0,
        buf: Seq::new(512, |i: int| 0u8),
        data_ix: 0,
        checksum: 0,
        lnibble: false,
        bank: 0,
        patch: 0,
        file_mode,
    }
}

impl Default for SysexCapture {
    fn default() -> (r: Self)
        ensures
            r@.wf(),
            r@ == fresh_capture(false),
    {
        Self::new()
    }
}

impl SysexCapture {
    /// A parser that captures only Bank Writes to the user bank.
    pub fn new() -> (r: Self)
        ensures
            r@.wf(),
            r@ == fresh_capture(false),
    {
        Self::with_mode(false)
    }

    /// A parser that accepts any cmd-0x02 patch dump regardless of its type
    /// and bank bytes, still enforcing header, nibble count, checksum and F7.
    pub fn file_mode() -> (r: Self)
        ensures
            r@.wf(),
            r@ == fresh_capture(true),
    {
        Self::with_mode(true)
    }

    pub fn with_mode(file_mode: bool) -> (r: Self)
        ensures
            r@.wf(),
            r@ == fresh_capture(file_mode),
    {
        let r = Self {
            state: State::Idle,
            hdr_ix: 0,
            buf: [0u8; 512],
            data_ix: 0,
            checksum: 0,
            lnibble: false,
            bank: 0,
            patch: 0,
            file_mode,
        };
        assert(r@.buf =~= Seq::new(512, |i: int| 0u8));
        r
    }

    /// Abandon any message in progress.
    pub fn reset(&mut self)
        requires
            old(self)@.wf(),
        ensures
            final(self)@ == old(self)@.idle(),
            final(self)@.wf(),
    {
        self.state = State::Idle;
        self.hdr_ix = 0;
    }

    /// User-bank slot named by the last captured message.
    pub fn slot(&self) -> (r: u8)
        ensures
            r == self@.patch & 0x7F,
    {
        self.patch & 0x7F
    }

    /// The 512-byte patch body of the last captured message.
    pub fn data(&self) -> (r: &[u8; 512])
        ensures
            r@ == self@.buf,
    {
        &self.buf
    }

    pub fn in_message(&self) -> (r: bool)
        ensures
            r == !(self@.state == State::Idle && self@.hdr_ix == 0),
    {
        !(self.state == State::Idle && self.hdr_ix == 0)
    }

    /// Feed one raw SysEx-stream byte. Returns true exactly once per
    /// complete, valid Bank Write (type 0x00, bank 1), or per valid patch
    /// dump in file mode.
    pub fn feed(&mut self, b: u8) -> (r: bool)
        requires
            old(self)@.wf(),
        ensures
            (final(self)@, r) == old(self)@.step(b),
            final(self)@.wf(),
    {
        // Realtime bytes are transparent everywhere.
        if b >= 0xF8 {
            return false;
        }
        // A status byte always (re)frames the stream.
        if b == 0xF0 {
            self.reset();
            self.hdr_ix = 1;
            return false;
        }
        if b >= 0x80 {
            let done = b == 0xF7 && self.state == State::Term;
            let bank = self.bank;
            self.reset();
            return done && (self.file_mode || bank == USER_BANK);
        }
        let ghost m = self@;
        match self.state {
            State::Idle => {
                if self.hdr_ix == 0 {
                } else if b == exec_header_byte(self.hdr_ix) {
                    self.hdr_ix = self.hdr_ix + 1;
                    if self.hdr_ix == HEADER_LEN {
                        self.state = State::Cmd;
                    }
                } else {
                    self.state = State::Skip;
                }
            },
            State::Cmd => {
                self.state = if b == CMD_PATCH_WRITE { State::Type } else { State::Skip };
            },
            State::Type => {
                if b == TYPE_BANK_WRITE_SID0 || self.file_mode {
                    self.state = State::Bank;
                    self.data_ix = 0;
                    self.checksum = 0;
                    self.lnibble = false;
                } else {
                    self.state = State::Skip;
                }
            },
            State::Bank => {
                self.bank = b;
                self.state = State::Patch;
            },
            State::Patch => {
                self.patch = b;
                self.state = State::Data;
            },
            State::Data => {
                self.checksum = self.checksum.wrapping_add(b);
                let byte_ix = (self.data_ix / 2) as usize;
                if !self.lnibble {
                    self.buf[byte_ix] = b & 0x0F;
                    self.lnibble = true;
                } else {
                    self.buf[byte_ix] = self.buf[byte_ix] | ((b & 0x0F) << 4u8);
                    self.lnibble = false;
                }
                self.data_ix = self.data_ix + 1;
                if self.data_ix == DATA_NIBBLES {
                    self.state = State::Checksum;
                }
                assert(self@.buf =~= m.data_step(b).buf);
            },
            State::Checksum => {
                let expect = 0u8.wrapping_sub(self.checksum) & 0x7F;
                assert(expect == expected_checksum(m.checksum as int)) by {
                    checksum_byte_matches(m.checksum);
                }
                self.state = if b == expect { State::Term } else { State::Skip };
            },
            State::Term => {
                self.state = State::Skip;
            },
            State::Skip => {},
        }
        false
    }
}

/// The exec checksum computation agrees with `expected_checksum`.
proof fn checksum_byte_matches(c: u8)
    ensures
        (0u8.wrapping_sub(c) & 0x7F) == expected_checksum(c as int),
{
    assert(0u8.wrapping_sub(c) == ((256 - c as int) % 256) as u8);
    let w: u8 = ((256 - c as int) % 256) as u8;
    assert(w & 0x7F == w % 128) by (bit_vector);
}


/// Low nibble of a byte.
pub open spec fn lo_nibble(d: u8) -> u8 {
    d & 0x0F
}

/// High nibble of a byte.
pub open spec fn hi_nibble(d: u8) -> u8 {
    (d >> 4u8) & 0x0F
}

/// MBSID nibblization: each byte becomes its low then its high nibble.
pub open spec fn nibbles(data: Seq<u8>) -> Seq<u8>
    decreases data.len(),
{
    if data.len() == 0 {
        Seq::empty()
    } else {
        nibbles(data.drop_last()) + seq![lo_nibble(data.last()), hi_nibble(data.last())]
    }
}

/// Sum of all nibbles of `data`.
pub open spec fn nibble_sum(data: Seq<u8>) -> int
    decreases data.len(),
{
    if data.len() == 0 {
        0
    } else {
        nibble_sum(data.drop_last()) + lo_nibble(data.last()) + hi_nibble(data.last())
    }
}

/// A complete MBSID v2 Patch Write message: header, cmd 0x02, type, bank,
/// patch, 1024 data nibbles, checksum, F7.
pub open spec fn patch_message(ptype: u8, bank: u8, patch: u8, data: Seq<u8>) -> Seq<u8> {
    seq![0xF0u8, 0x00u8, 0x00u8, 0x7Eu8, 0x4Bu8, 0x00u8, CMD_PATCH_WRITE, ptype, bank, patch]
        + nibbles(data) + seq![expected_checksum(nibble_sum(data)), 0xF7u8]
}

/// Run the parser over a byte sequence: final state and number of captures.
pub open spec fn run(m: CaptureModel, bytes: Seq<u8>) -> (CaptureModel, nat)
    decreases bytes.len(),
{
    if bytes.len() == 0 {
        (m, 0)
    } else {
        let (m1, c) = m.step(bytes[0]);
        let (m2, n) = run(m1, bytes.drop_first());
        (m2, n + if c { 1nat } else { 0nat })
    }
}

/// Running over a concatenation is running over each part in turn.
pub proof fn lemma_run_concat(m: CaptureModel, a: Seq<u8>, b: Seq<u8>)
    ensures
        run(m, a + b) == ({
            let (m1, n1) = run(m, a);
            let (m2, n2) = run(m1, b);
            (m2, n1 + n2)
        }),
    decreases a.len(),
{
    if a.len() == 0 {
        assert(a + b =~= b);
    } else {
        let (m1, c) = m.step(a[0]);
        assert((a + b).drop_first() =~= a.drop_first() + b);
        lemma_run_concat(m1, a.drop_first(), b);
    }
}

/// A nibblized body is twice as long and holds only nibbles.
pub proof fn lemma_nibbles_len(data: Seq<u8>)
    ensures
        nibbles(data).len() == 2 * data.len(),
        forall|i: int| 0 <= i < nibbles(data).len() ==> #[trigger] nibbles(data)[i] < 16,
    decreases data.len(),
{
    if data.len() > 0 {
        lemma_nibbles_len(data.drop_last());
        let d = data.last();
        assert(d & 0x0F < 16 && (d >> 4u8) & 0x0F < 16) by (bit_vector);
        let n = nibbles(data);
        let p = nibbles(data.drop_last());
        assert forall|i: int| 0 <= i < n.len() implies #[trigger] n[i] < 16 by {
            if i < p.len() {
                assert(n[i] == p[i]);
            }
        }
    }
}

proof fn lemma_nibble_sum_nonneg(data: Seq<u8>)
    ensures
        nibble_sum(data) >= 0,
    decreases data.len(),
{
    if data.len() > 0 {
        lemma_nibble_sum_nonneg(data.drop_last());
    }
}

/// A parser in the Skip state ignores data bytes.
proof fn lemma_skip_data(m: CaptureModel, bytes: Seq<u8>)
    requires
        m.state == State::Skip,
        forall|i: int| 0 <= i < bytes.len() ==> #[trigger] bytes[i] < 0x80,
    ensures
        run(m, bytes) == (m, 0nat),
    decreases bytes.len(),
{
    if bytes.len() > 0 {
        assert(bytes[0] < 0x80);
        lemma_skip_data(m, bytes.drop_first());
    }
}

/// The state reached after the first `k` data bytes' nibbles.
pub open spec fn after_nibbles(m: CaptureModel, data: Seq<u8>, k: int) -> CaptureModel {
    CaptureModel {
        state: if k == 512 { State::Checksum } else { State::Data },
        data_ix: (2 * k) as u16,
        lnibble: false,
        checksum: (nibble_sum(data.take(k)) % 256) as u8,
        buf: data.take(k) + m.buf.skip(k),
        ..m
    }
}

proof fn lemma_byte_reassembles(d: u8)
    ensures
        ((d & 0x0F) | ((((((d >> 4u8) & 0x0F) & 0x0F) << 4u8) as u8))) == d,
        (d & 0x0F) & 0x0F == d & 0x0F,
{
    assert(((d & 0x0F) | ((((((d >> 4u8) & 0x0F) & 0x0F) << 4u8) as u8))) == d) by (bit_vector);
    assert((d & 0x0F) & 0x0F == d & 0x0F) by (bit_vector);
}

/// One data byte arrives as its two nibbles.
proof fn lemma_data_pair(a: CaptureModel, d: u8)
    requires
        a.wf(),
        a.state == State::Data,
        !a.lnibble,
        a.data_ix <= 1022,
    ensures
        run(a, seq![lo_nibble(d), hi_nibble(d)]) == (CaptureModel {
            buf: a.buf.update((a.data_ix / 2) as int, d),
            data_ix: (a.data_ix + 2) as u16,
            checksum: ((a.checksum + lo_nibble(d) + hi_nibble(d)) % 256) as u8,
            state: if a.data_ix + 2 == 1024 { State::Checksum } else { State::Data },
            ..a
        }, 0nat),
{
    let lo = lo_nibble(d);
    let hi = hi_nibble(d);
    assert(lo < 16 && hi < 16) by {
        assert(d & 0x0F < 16 && (d >> 4u8) & 0x0F < 16) by (bit_vector);
    }
    lemma_byte_reassembles(d);
    let a1 = a.data_step(lo);
    let a2 = a1.data_step(hi);
    assert(a.step(lo) == (a1, false));
    assert(a1.step(hi) == (a2, false));
    assert(a2.buf =~= a.buf.update((a.data_ix / 2) as int, d));
    let e = Seq::<u8>::empty();
    assert(e.push(lo).push(hi) =~= seq![lo, hi]);
    lemma_run_push(a, e, lo);
    lemma_run_push(a, e.push(lo), hi);
}

/// Feeding the nibbles of `data` fills the buffer byte by byte.
proof fn lemma_data_nibbles(m: CaptureModel, data: Seq<u8>, k: int)
    requires
        m.wf(),
        m.state == State::Data,
        m.data_ix == 0,
        !m.lnibble,
        m.checksum == 0,
        data.len() == 512,
        0 <= k <= 512,
    ensures
        run(m, nibbles(data.take(k))) == (after_nibbles(m, data, k), 0nat),
    decreases k,
{
    if k == 0 {
        assert(nibbles(data.take(0)) =~= Seq::<u8>::empty());
        assert(data.take(0) + m.buf.skip(0) =~= m.buf);
        assert(nibble_sum(data.take(0)) == 0);
    } else {
        lemma_data_nibbles(m, data, k - 1);
        let t = data.take(k);
        assert(t.drop_last() =~= data.take(k - 1));
        let d = data[k - 1];
        assert(t.last() == d);
        assert(nibbles(t) == nibbles(data.take(k - 1)) + seq![lo_nibble(d), hi_nibble(d)]);
        lemma_run_concat(m, nibbles(data.take(k - 1)), seq![lo_nibble(d), hi_nibble(d)]);
        let a = after_nibbles(m, data, k - 1);
        lemma_data_pair(a, d);
        lemma_nibble_sum_nonneg(data.take(k - 1));
        let target = after_nibbles(m, data, k);
        assert(nibble_sum(t) == nibble_sum(data.take(k - 1)) + lo_nibble(d) + hi_nibble(d));
        assert(a.buf.update((a.data_ix / 2) as int, d) =~= target.buf);
    }
}

/// Running one more byte after a prefix.
pub proof fn lemma_run_push(m: CaptureModel, a: Seq<u8>, b: u8)
    ensures
        run(m, a.push(b)) == ({
            let (m1, n1) = run(m, a);
            let (m2, c) = m1.step(b);
            (m2, n1 + if c { 1nat } else { 0nat })
        }),
{
    assert(a.push(b) =~= a + seq![b]);
    lemma_run_concat(m, a, seq![b]);
    let m1 = run(m, a).0;
    assert(seq![b].drop_first() =~= Seq::<u8>::empty());
    reveal_with_fuel(run, 2);
    assert(run(m1, seq![b]) == ({
        let (m2, c) = m1.step(b);
        (m2, if c { 1nat } else { 0nat })
    }));
}

/// The ten framing bytes that precede the data nibbles.
pub open spec fn message_head(ptype: u8, bank: u8, patch: u8) -> Seq<u8> {
    seq![0xF0u8, 0x00u8, 0x00u8, 0x7Eu8, 0x4Bu8, 0x00u8, CMD_PATCH_WRITE, ptype, bank, patch]
}

/// After the framing bytes the parser is ready for data (or skipping).
proof fn lemma_head(m: CaptureModel, ptype: u8, bank: u8, patch: u8)
    requires
        m.wf(),
        ptype < 0x80,
        bank < 0x80,
        patch < 0x80,
    ensures
        ({
            let (h, n) = run(m, message_head(ptype, bank, patch));
            &&& n == 0
            &&& h.wf()
            &&& h.file_mode == m.file_mode
            &&& h.buf == m.buf
            &&& if ptype == TYPE_BANK_WRITE_SID0 || m.file_mode {
                &&& h.state == State::Data
                &&& h.data_ix == 0
                &&& !h.lnibble
                &&& h.checksum == 0
                &&& h.bank == bank
                &&& h.patch == patch
            } else {
                &&& h.state == State::Skip
                &&& h.patch == m.patch
            }
        }),
{
    let e = Seq::<u8>::empty();
    let q1 = e.push(0xF0u8);
    let q2 = q1.push(0x00u8);
    let q3 = q2.push(0x00u8);
    let q4 = q3.push(0x7Eu8);
    let q5 = q4.push(0x4Bu8);
    let q6 = q5.push(0x00u8);
    let q7 = q6.push(CMD_PATCH_WRITE);
    let q8 = q7.push(ptype);
    let q9 = q8.push(bank);
    let q10 = q9.push(patch);
    assert(q10 =~= message_head(ptype, bank, patch));
    lemma_run_push(m, e, 0xF0u8);
    lemma_run_push(m, q1, 0x00u8);
    lemma_run_push(m, q2, 0x00u8);
    lemma_run_push(m, q3, 0x7Eu8);
    lemma_run_push(m, q4, 0x4Bu8);
    lemma_run_push(m, q5, 0x00u8);
    lemma_run_push(m, q6, CMD_PATCH_WRITE);
    lemma_run_push(m, q7, ptype);
    lemma_run_push(m, q8, bank);
    lemma_run_push(m, q9, patch);
    let s0 = m.step(0xF0u8).0;
    assert(run(m, q1) == (s0, 0nat));
    assert(s0.hdr_ix == 1 && s0.state == State::Idle);
    let s5 = run(m, q6).0;
    assert(s5.state == State::Cmd);
}

/// The checksum byte and terminator close the message.
proof fn lemma_tail(a: CaptureModel, cs: u8)
    requires
        a.wf(),
        cs < 0x80,
    ensures
        run(a, seq![cs, 0xF7u8]) == ({
            let t = a.step(cs).0;
            (t.idle(), if t.accepts() { 1nat } else { 0nat })
        }),
{
    let t = a.step(cs).0;
    assert(seq![cs, 0xF7u8].drop_first() =~= seq![0xF7u8]);
    assert(seq![0xF7u8].drop_first() =~= Seq::<u8>::empty());
    reveal_with_fuel(run, 3);
}

/// Law: a complete Patch Write message is captured exactly when its type
/// and bank pass the mode's acceptance rule, and the captured body and
/// slot are the message's. Whatever state the parser was in before, the
/// leading F0 reframes it, and it ends idle.
#[verifier::rlimit(40)]
pub proof fn lemma_patch_message_capture(m: CaptureModel, ptype: u8, bank: u8, patch: u8, data: Seq<u8>)
    requires
        m.wf(),
        data.len() == 512,
        ptype < 0x80,
        bank < 0x80,
        patch < 0x80,
    ensures
        ({
            let (m2, n) = run(m, patch_message(ptype, bank, patch, data));
            let accepted = (ptype == TYPE_BANK_WRITE_SID0 || m.file_mode) && (m.file_mode || bank == USER_BANK);
            &&& n == (if accepted { 1nat } else { 0nat })
            &&& m2.wf()
            &&& m2.state == State::Idle
            &&& m2.hdr_ix == 0
            &&& m2.file_mode == m.file_mode
            &&& (accepted ==> m2.buf == data && m2.patch == patch)
        }),
{
    let hdr = message_head(ptype, bank, patch);
    let body = nibbles(data);
    let cs = expected_checksum(nibble_sum(data));
    let tail = seq![cs, 0xF7u8];
    assert(patch_message(ptype, bank, patch, data) == hdr + body + tail);
    lemma_run_concat(m, hdr + body, tail);
    lemma_run_concat(m, hdr, body);
    lemma_nibbles_len(data);
    lemma_head(m, ptype, bank, patch);
    let s9 = run(m, hdr).0;
    let mb = run(s9, body).0;
    assert(cs < 0x80);
    if ptype == TYPE_BANK_WRITE_SID0 || m.file_mode {
        assert(data.take(512) =~= data);
        lemma_data_nibbles(s9, data, 512);
        let a = after_nibbles(s9, data, 512);
        assert(mb == a);
        assert(a.buf =~= data) by {
            assert(s9.buf.skip(512) =~= Seq::<u8>::empty());
        }
        lemma_nibble_sum_nonneg(data);
        assert(expected_checksum(a.checksum as int) == cs);
        lemma_tail(a, cs);
    } else {
        assert forall|i: int| 0 <= i < body.len() implies #[trigger] body[i] < 0x80 by {}
        lemma_skip_data(s9, body);
        lemma_tail(s9, cs);
    }
}

/// The body captured by the first complete message in `bytes`, if any.
pub open spec fn first_capture(m: CaptureModel, bytes: Seq<u8>) -> Option<Seq<u8>>
    decreases bytes.len(),
{
    if bytes.len() == 0 {
        None
    } else {
        let (m1, c) = m.step(bytes[0]);
        if c {
            Some(m1.buf)
        } else {
            first_capture(m1, bytes.drop_first())
        }
    }
}

/// First capture over a concatenation.
pub proof fn lemma_first_capture_concat(m: CaptureModel, a: Seq<u8>, b: Seq<u8>)
    ensures
        first_capture(m, a + b) == (if first_capture(m, a) is Some {
            first_capture(m, a)
        } else {
            first_capture(run(m, a).0, b)
        }),
    decreases a.len(),
{
    if a.len() == 0 {
        assert(a + b =~= b);
    } else {
        let (m1, c) = m.step(a[0]);
        assert((a + b).drop_first() =~= a.drop_first() + b);
        lemma_first_capture_concat(m1, a.drop_first(), b);
    }
}

/// No capture in a run means no first capture.
pub proof fn lemma_no_count_no_capture(m: CaptureModel, a: Seq<u8>)
    requires
        run(m, a).1 == 0,
    ensures
        first_capture(m, a) is None,
    decreases a.len(),
{
    if a.len() > 0 {
        let (m1, c) = m.step(a[0]);
        lemma_no_count_no_capture(m1, a.drop_first());
    }
}

/// The first capture of a Patch Write message is its body, exactly when
/// the message is accepted.
#[verifier::rlimit(40)]
pub proof fn lemma_message_first_capture(m: CaptureModel, ptype: u8, bank: u8, patch: u8, data: Seq<u8>)
    requires
        m.wf(),
        data.len() == 512,
        ptype < 0x80,
        bank < 0x80,
        patch < 0x80,
    ensures
        first_capture(m, patch_message(ptype, bank, patch, data)) == (
            if (ptype == TYPE_BANK_WRITE_SID0 || m.file_mode) && (m.file_mode || bank == USER_BANK) {
                Some(data)
            } else {
                None::<Seq<u8>>
            }),
{
    let hdr = message_head(ptype, bank, patch);
    let body = nibbles(data);
    let cs = expected_checksum(nibble_sum(data));
    let tail = seq![cs, 0xF7u8];
    assert(patch_message(ptype, bank, patch, data) == hdr + body + tail);
    lemma_run_concat(m, hdr, body);
    lemma_first_capture_concat(m, hdr + body, tail);
    lemma_nibbles_len(data);
    lemma_head(m, ptype, bank, patch);
    let s9 = run(m, hdr).0;
    assert(cs < 0x80);
    let a = run(m, hdr + body).0;
    if ptype == TYPE_BANK_WRITE_SID0 || m.file_mode {
        assert(data.take(512) =~= data);
        lemma_data_nibbles(s9, data, 512);
        assert(a == after_nibbles(s9, data, 512));
        assert(a.buf =~= data) by {
            assert(s9.buf.skip(512) =~= Seq::<u8>::empty());
        }
        lemma_nibble_sum_nonneg(data);
        assert(expected_checksum(a.checksum as int) == cs);
    } else {
        assert forall|i: int| 0 <= i < body.len() implies #[trigger] body[i] < 0x80 by {}
        lemma_skip_data(s9, body);
    }
    lemma_no_count_no_capture(m, hdr + body);
    lemma_tail_first_capture(a, cs);
}

proof fn lemma_tail_first_capture(a: CaptureModel, cs: u8)
    requires
        a.wf(),
        cs < 0x80,
    ensures
        first_capture(a, seq![cs, 0xF7u8]) == ({
            let t = a.step(cs).0;
            if t.accepts() { Some(t.buf) } else { None::<Seq<u8>> }
        }),
{
    assert(a.step(cs).1 == false);
    assert(seq![cs, 0xF7u8].drop_first() =~= seq![0xF7u8]);
    assert(seq![0xF7u8].drop_first() =~= Seq::<u8>::empty());
    reveal_with_fuel(first_capture, 3);
}

/// The patch byte that two data nibbles carry: the low four bits of `lo`,
/// then the low four bits of `hi` above them.
pub open spec fn nibble_pair(lo: u8, hi: u8) -> u8 {
    (lo & 0x0F) | (((hi & 0x0F) << 4u8) as u8)
}

/// The body that a run of data nibbles carries: byte `i` from nibbles `2i`
/// and `2i + 1`.
pub open spec fn decode_nibbles(d: Seq<u8>) -> Seq<u8> {
    Seq::new(d.len() / 2, |i: int| nibble_pair(d[2 * i], d[2 * i + 1]))
}

/// Sum of the bytes of `d`.
pub open spec fn byte_sum(d: Seq<u8>) -> int
    decreases d.len(),
{
    if d.len() == 0 {
        0
    } else {
        byte_sum(d.drop_last()) + d.last()
    }
}

/// A Patch Write message as it may arrive: the framing bytes, the data
/// nibbles `d` as sent (any 7-bit values), the checksum byte `ck`, F7.
pub open spec fn raw_patch_message(ptype: u8, bank: u8, patch: u8, d: Seq<u8>, ck: u8) -> Seq<u8> {
    message_head(ptype, bank, patch) + d + seq![ck, 0xF7u8]
}

/// `bytes` with its realtime bytes (`0xF8..=0xFF`) taken out.
pub open spec fn strip_realtime(bytes: Seq<u8>) -> Seq<u8>
    decreases bytes.len(),
{
    if bytes.len() == 0 {
        Seq::empty()
    } else if bytes[0] >= 0xF8 {
        strip_realtime(bytes.drop_first())
    } else {
        seq![bytes[0]] + strip_realtime(bytes.drop_first())
    }
}

/// Law: realtime bytes are transparent. Feeding a stream has the same
/// outcome (final state and number of captures) as feeding it without its
/// realtime bytes, wherever they stand.
pub proof fn lemma_realtime_transparent(m: CaptureModel, bytes: Seq<u8>)
    ensures
        run(m, bytes) == run(m, strip_realtime(bytes)),
    decreases bytes.len(),
{
    if bytes.len() > 0 {
        let b = bytes[0];
        lemma_realtime_transparent(m.step(b).0, bytes.drop_first());
        if b < 0xF8 {
            let r = strip_realtime(bytes.drop_first());
            assert((seq![b] + r)[0] == b);
            assert((seq![b] + r).drop_first() =~= r);
        }
    }
}

/// The state reached after the first `k` pairs of raw data nibbles.
pub open spec fn after_raw_nibbles(m: CaptureModel, d: Seq<u8>, k: int) -> CaptureModel {
    CaptureModel {
        state: if k == 512 { State::Checksum } else { State::Data },
        data_ix: (2 * k) as u16,
        lnibble: false,
        checksum: (byte_sum(d.take(2 * k)) % 256) as u8,
        buf: decode_nibbles(d.take(2 * k)) + m.buf.skip(k),
        ..m
    }
}

/// Two raw data nibbles fill one body byte and add to the running sum.
proof fn lemma_raw_pair(a: CaptureModel, lo: u8, hi: u8)
    requires
        a.wf(),
        a.state == State::Data,
        !a.lnibble,
        a.data_ix <= 1022,
        lo < 0x80,
        hi < 0x80,
    ensures
        run(a, seq![lo, hi]) == (CaptureModel {
            buf: a.buf.update((a.data_ix / 2) as int, nibble_pair(lo, hi)),
            data_ix: (a.data_ix + 2) as u16,
            checksum: ((a.checksum + lo + hi) % 256) as u8,
            state: if a.data_ix + 2 == 1024 { State::Checksum } else { State::Data },
            ..a
        }, 0nat),
{
    let a1 = a.data_step(lo);
    let a2 = a1.data_step(hi);
    assert(a.step(lo) == (a1, false));
    assert(a1.step(hi) == (a2, false));
    assert(a2.buf =~= a.buf.update((a.data_ix / 2) as int, nibble_pair(lo, hi)));
    let e = Seq::<u8>::empty();
    assert(e.push(lo).push(hi) =~= seq![lo, hi]);
    lemma_run_push(a, e, lo);
    lemma_run_push(a, e.push(lo), hi);
}

/// Feeding raw data nibbles fills the buffer pair by pair.
proof fn lemma_raw_nibbles(m: CaptureModel, d: Seq<u8>, k: int)
    requires
        m.wf(),
        m.state == State::Data,
        m.data_ix == 0,
        !m.lnibble,
        m.checksum == 0,
        d.len() == 1024,
        forall|i: int| 0 <= i < d.len() ==> #[trigger] d[i] < 0x80,
        0 <= k <= 512,
    ensures
        run(m, d.take(2 * k)) == (after_raw_nibbles(m, d, k), 0nat),
    decreases k,
{
    if k == 0 {
        assert(d.take(0) =~= Seq::<u8>::empty());
        assert(decode_nibbles(d.take(0)) + m.buf.skip(0) =~= m.buf);
    } else {
        lemma_raw_nibbles(m, d, k - 1);
        let lo = d[2 * k - 2];
        let hi = d[2 * k - 1];
        let t0 = d.take(2 * k - 2);
        let t1 = d.take(2 * k - 1);
        let t2 = d.take(2 * k);
        assert(t2 =~= t0 + seq![lo, hi]);
        assert(t2.drop_last() =~= t1);
        assert(t1.drop_last() =~= t0);
        assert(byte_sum(t2) == byte_sum(t1) + hi);
        assert(byte_sum(t1) == byte_sum(t0) + lo);
        lemma_run_concat(m, t0, seq![lo, hi]);
        let a = after_raw_nibbles(m, d, k - 1);
        lemma_raw_pair(a, lo, hi);
        let target = after_raw_nibbles(m, d, k);
        assert(((byte_sum(t0) % 256) + lo + hi) % 256 == (byte_sum(t0) + lo + hi) % 256) by (nonlinear_arith);
        assert(a.buf.update((a.data_ix / 2) as int, nibble_pair(lo, hi)) =~= target.buf);
    }
}

/// The checksum byte closes the data exactly when it makes the sum of all
/// data bytes and itself a multiple of 128.
proof fn lemma_checksum_closes(ck: u8, sum: int)
    requires
        ck < 0x80,
        sum >= 0,
    ensures
        (ck == expected_checksum(((sum % 256) as u8) as int)) == ((ck + sum) % 128 == 0),
{
    assert(((sum % 256) as u8) as int == sum % 256);
    assert((sum % 256) % 128 == sum % 128) by (nonlinear_arith)
        requires
            sum >= 0,
    ;
}

proof fn lemma_byte_sum_nonneg(d: Seq<u8>)
    ensures
        byte_sum(d) >= 0,
    decreases d.len(),
{
    if d.len() > 0 {
        lemma_byte_sum_nonneg(d.drop_last());
    }
}

/// Law: a Patch Write message whose data nibbles are any 7-bit values is
/// captured exactly once, on its final F7, when its type and bank pass the
/// mode's rule and its checksum byte makes the byte sum a multiple of 128;
/// otherwise never. A captured body is the nibble pairs' bytes. The patch
/// byte becomes the parser's slot whenever the message reaches it (a
/// type the mode accepts), whether or not the message is then captured.
/// Whatever state the parser was in, the leading F0 reframes it, and it
/// ends idle.
#[verifier::rlimit(40)]
pub proof fn lemma_raw_message_capture(m: CaptureModel, ptype: u8, bank: u8, patch: u8, d: Seq<u8>, ck: u8)
    requires
        m.wf(),
        d.len() == 1024,
        forall|i: int| 0 <= i < d.len() ==> #[trigger] d[i] < 0x80,
        ptype < 0x80,
        bank < 0x80,
        patch < 0x80,
        ck < 0x80,
    ensures
        ({
            let msg = raw_patch_message(ptype, bank, patch, d, ck);
            let (m2, n) = run(m, msg);
            let reached = ptype == TYPE_BANK_WRITE_SID0 || m.file_mode;
            let accepted = reached && (m.file_mode || bank == USER_BANK) && (ck + byte_sum(d)) % 128 == 0;
            &&& n == (if accepted { 1nat } else { 0nat })
            &&& run(m, msg.drop_last()).1 == 0
            &&& m2.wf()
            &&& m2.state == State::Idle
            &&& m2.hdr_ix == 0
            &&& m2.file_mode == m.file_mode
            &&& m2.patch == (if reached { patch } else { m.patch })
            &&& (accepted ==> m2.buf == decode_nibbles(d))
        }),
{
    let hdr = message_head(ptype, bank, patch);
    let tail = seq![ck, 0xF7u8];
    let msg = raw_patch_message(ptype, bank, patch, d, ck);
    assert(msg.drop_last() =~= (hdr + d).push(ck));
    lemma_run_push(m, hdr + d, ck);
    lemma_run_concat(m, hdr + d, tail);
    lemma_run_concat(m, hdr, d);
    lemma_head(m, ptype, bank, patch);
    let s9 = run(m, hdr).0;
    let mb = run(s9, d).0;
    if ptype == TYPE_BANK_WRITE_SID0 || m.file_mode {
        assert(d.take(1024) =~= d);
        lemma_raw_nibbles(s9, d, 512);
        let a = after_raw_nibbles(s9, d, 512);
        assert(mb == a);
        assert(a.buf =~= decode_nibbles(d)) by {
            assert(s9.buf.skip(512) =~= Seq::<u8>::empty());
        }
        lemma_byte_sum_nonneg(d);
        lemma_checksum_closes(ck, byte_sum(d));
        lemma_tail(a, ck);
    } else {
        lemma_skip_data(s9, d);
        lemma_tail(s9, ck);
    }
}

/// Law: the same outcome holds with realtime bytes interleaved anywhere in
/// the message.
pub proof fn lemma_stream_message_capture(
    m: CaptureModel,
    bytes: Seq<u8>,
    ptype: u8,
    bank: u8,
    patch: u8,
    d: Seq<u8>,
    ck: u8,
)
    requires
        m.wf(),
        strip_realtime(bytes) == raw_patch_message(ptype, bank, patch, d, ck),
        d.len() == 1024,
        forall|i: int| 0 <= i < d.len() ==> #[trigger] d[i] < 0x80,
        ptype < 0x80,
        bank < 0x80,
        patch < 0x80,
        ck < 0x80,
    ensures
        ({
            let (m2, n) = run(m, bytes);
            let reached = ptype == TYPE_BANK_WRITE_SID0 || m.file_mode;
            let accepted = reached && (m.file_mode || bank == USER_BANK) && (ck + byte_sum(d)) % 128 == 0;
            &&& n == (if accepted { 1nat } else { 0nat })
            &&& m2.wf()
            &&& m2.state == State::Idle
            &&& m2.hdr_ix == 0
            &&& m2.patch == (if reached { patch } else { m.patch })
            &&& (accepted ==> m2.buf == decode_nibbles(d))
        }),
{
    lemma_realtime_transparent(m, bytes);
    lemma_raw_message_capture(m, ptype, bank, patch, d, ck);
}

} // verus!
