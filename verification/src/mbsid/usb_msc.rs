//! The USB mass-storage driver's decisions: how a block transfer's status
//! polls are judged, how 32-bit FIFO words map onto a sector buffer, and the
//! failure bookkeeping.
use vstd::prelude::*;

verus! {

/// Why a block transfer failed.
#[derive(Debug, Clone, Copy, PartialEq, Eq, Structural)]
pub enum MscError {
    NotReady,
    ReadError,
    WriteError,
}

/// A failed read: reason (1 = not ready, 2 = error response, 3 = spin
/// timeout), word index, LBA, spins, then the reject snapshot.
pub type ReadFailure = (u8, u8, u32, u32, u8, u8, u8, u8);

/// Transfer counters and the first and last failure since `begin`.
#[derive(Debug, Clone, Copy, PartialEq, Eq, Default)]
pub struct MscDiag {
    pub rd: u32,
    pub rd_err: u32,
    pub wr: u32,
    pub wr_ok: u32,
    pub wr_notready: u32,
    pub wr_resp_err: u32,
    pub wr_timeout: u32,
    pub wr_spins_last: u32,
    /// Last reject info after a failed write.
    pub wr_reject: (u8, u8, u8, u8, u8),
    /// Last command status after a failed write: (status, residue).
    pub wr_csw: (u8, u32),
    /// First failed write since `begin`.
    pub wr_csw_first: (u8, u32),
    pub wr_reject_first: (u8, u8, u8, u8, u8),
    pub wr_first_set: bool,
    /// First and last failed read since `begin`.
    pub rd_fail_first: (u8, u8, u32, u32, u8, u8, u8, u8),
    pub rd_fail: (u8, u8, u32, u32, u8, u8, u8, u8),
    /// Packed read-path snapshot taken with each failed read.
    pub rd_path_first: u32,
    pub rd_path: u32,
    pub rd_first_set: bool,
}

/// The bookkeeping after a failed write: it becomes the last failure, and
/// the first one when none was recorded since `begin`.
pub open spec fn note_write_failure(d: MscDiag, csw: (u8, u32), reject: (u8, u8, u8, u8, u8)) -> MscDiag {
    if d.wr_first_set {
        MscDiag { wr_csw: csw, wr_reject: reject, ..d }
    } else {
        MscDiag { wr_csw: csw, wr_reject: reject, wr_first_set: true, wr_csw_first: csw, wr_reject_first: reject, ..d }
    }
}

/// The bookkeeping after a failed read: it becomes the last failure, and
/// the first one when none was recorded since `begin`.
pub open spec fn note_read_failure(d: MscDiag, v: (u8, u8, u32, u32, u8, u8, u8, u8), path: u32) -> MscDiag {
    if d.rd_first_set {
        MscDiag { rd_fail: v, rd_path: path, ..d }
    } else {
        MscDiag { rd_fail: v, rd_path: path, rd_first_set: true, rd_fail_first: v, rd_path_first: path, ..d }
    }
}

impl MscDiag {
    /// Clears the first-failure capture so the next failures are attributed
    /// to the operation that follows.
    pub fn begin(&mut self)
        ensures
            *final(self) == (MscDiag {
                wr_first_set: false,
                wr_csw_first: (0, 0),
                wr_reject_first: (0, 0, 0, 0, 0),
                rd_first_set: false,
                rd_fail_first: (0, 0, 0, 0, 0, 0, 0, 0),
                rd_fail: (0, 0, 0, 0, 0, 0, 0, 0),
                rd_path_first: 0,
                rd_path: 0,
                ..*old(self)
            }),
    {
        self.wr_first_set = false;
        self.wr_csw_first = (0, 0);
        self.wr_reject_first = (0, 0, 0, 0, 0);
        self.rd_first_set = false;
        self.rd_fail_first = (0, 0, 0, 0, 0, 0, 0, 0);
        self.rd_fail = (0, 0, 0, 0, 0, 0, 0, 0);
        self.rd_path_first = 0;
        self.rd_path = 0;
    }

    /// Records a failed read as the last one, and as the first one if none
    /// was recorded since `begin`.
    pub fn record_rd_failure(&mut self, v: (u8, u8, u32, u32, u8, u8, u8, u8), path: u32)
        ensures
            *final(self) == note_read_failure(*old(self), v, path),
    {
        self.rd_fail = v;
        self.rd_path = path;
        if !self.rd_first_set {
            self.rd_first_set = true;
            self.rd_fail_first = v;
            self.rd_path_first = path;
        }
    }

    /// Records a failed write as the last one, and as the first one if none
    /// was recorded since `begin`.
    pub fn record_failure(&mut self, csw: (u8, u32), reject: (u8, u8, u8, u8, u8))
        ensures
            *final(self) == note_write_failure(*old(self), csw, reject),
    {
        self.wr_csw = csw;
        self.wr_reject = reject;
        if !self.wr_first_set {
            self.wr_first_set = true;
            self.wr_csw_first = csw;
            self.wr_reject_first = reject;
        }
    }
}

/// However many failures follow, the first one recorded since `begin`
/// stays put while each later one replaces only the last failure.
pub proof fn lemma_first_failure_sticks(d: MscDiag, c1: (u8, u32), r1: (u8, u8, u8, u8, u8), c2: (u8, u32), r2: (
    u8,
    u8,
    u8,
    u8,
    u8,
))
    requires
        !d.wr_first_set,
    ensures
        note_write_failure(note_write_failure(d, c1, r1), c2, r2).wr_csw_first == c1,
        note_write_failure(note_write_failure(d, c1, r1), c2, r2).wr_reject_first == r1,
        note_write_failure(note_write_failure(d, c1, r1), c2, r2).wr_csw == c2,
        note_write_failure(note_write_failure(d, c1, r1), c2, r2).wr_reject == r2,
{
}

/// The sense key, additional sense code and qualifier packed in the low
/// 20 bits of the drive's REQUEST SENSE result (key 0x7 with code 0x27 is
/// WRITE PROTECTED; key 0x2 is NOT READY).
pub fn sense_fields(code: u32) -> (r: (u8, u8, u8))
    ensures
        r.0 == code / 0x1_0000 % 0x10,
        r.1 == code / 0x100 % 0x100,
        r.2 == code % 0x100,
{
    let key = ((code >> 16u32) & 0xF) as u8;
    let asc = ((code >> 8u32) & 0xFF) as u8;
    let ascq = (code & 0xFF) as u8;
    assert(((code >> 16u32) & 0xF) == code / 0x1_0000 % 0x10) by (bit_vector);
    assert(((code >> 8u32) & 0xFF) == code / 0x100 % 0x100) by (bit_vector);
    assert((code & 0xFF) == code % 0x100) by (bit_vector);
    (key, asc, ascq)
}

/// Spin limit while waiting for one word of a read (about 3 s).
pub const READ_MAX_SPIN: u32 = 10_000_000;
/// Spin limit while waiting for the engine to become ready before a write.
pub const READY_SPIN: u32 = 2_000_000;
/// Spin limit while waiting for a write's completion (about 12 s).
pub const WRITE_MAX_SPIN: u32 = 40_000_000;

/// The little-endian 32-bit word `i` of a sector buffer.
pub open spec fn word_at(buf: Seq<u8>, i: int) -> u32 {
    (buf[4 * i] + buf[4 * i + 1] * 0x100 + buf[4 * i + 2] * 0x1_0000 + buf[4 * i + 3] * 0x100_0000) as u32
}

/// The four bytes of `w`, least significant first.
pub open spec fn le_bytes(w: u32) -> Seq<u8> {
    seq![(w % 0x100) as u8, (w / 0x100 % 0x100) as u8, (w / 0x1_0000 % 0x100) as u8, (w / 0x100_0000) as u8]
}

/// Word `i` of a sector buffer, as the transmit FIFO takes it.
pub fn get_word(buf: &[u8; 512], i: usize) -> (w: u32)
    requires
        i < 128,
    ensures
        w == word_at(buf@, i as int),
{
    buf[4 * i] as u32 + (buf[4 * i + 1] as u32) * 0x100 + (buf[4 * i + 2] as u32) * 0x1_0000 + (buf[4 * i + 3] as u32)
        * 0x100_0000
}

/// Stores a received word as bytes `4i..4i+4` of the sector buffer.
pub fn put_word(buf: &mut [u8; 512], i: usize, w: u32)
    requires
        i < 128,
    ensures
        final(buf)@ == old(buf)@.take(4 * i as int) + le_bytes(w) + old(buf)@.skip(4 * i + 4),
{
    let ghost b0 = buf@;
    buf[4 * i] = (w % 0x100) as u8;
    buf[4 * i + 1] = (w / 0x100 % 0x100) as u8;
    buf[4 * i + 2] = (w / 0x1_0000 % 0x100) as u8;
    buf[4 * i + 3] = (w / 0x100_0000) as u8;
    assert(buf@ =~= b0.take(4 * i as int) + le_bytes(w) + b0.skip(4 * i + 4));
}

/// A word stored in a sector buffer reads back as the same word.
pub proof fn lemma_word_roundtrip(buf: Seq<u8>, i: int, w: u32)
    requires
        0 <= i < 128,
        buf.len() == 512,
    ensures
        word_at(buf.take(4 * i) + le_bytes(w) + buf.skip(4 * i + 4), i) == w,
{
    let b = buf.take(4 * i) + le_bytes(w) + buf.skip(4 * i + 4);
    assert(b[4 * i] == (w % 0x100) as u8);
    assert(b[4 * i + 1] == (w / 0x100 % 0x100) as u8);
    assert(b[4 * i + 2] == (w / 0x1_0000 % 0x100) as u8);
    assert(b[4 * i + 3] == (w / 0x100_0000) as u8);
    assert(w == (w % 0x100) + (w / 0x100 % 0x100) * 0x100 + (w / 0x1_0000 % 0x100) * 0x1_0000 + (w / 0x100_0000)
        * 0x100_0000) by (nonlinear_arith);
}

/// What one status poll during a read decided.
#[derive(Debug, Clone, Copy, PartialEq, Eq, Structural)]
pub enum ReadPoll {
    /// A word is waiting in the receive FIFO.
    Word,
    /// The transfer failed: 2 = the engine reported an error, 3 = the spin
    /// limit ran out.
    Failed(u8),
    /// Keep polling.
    Wait,
}

/// The read of one block: which word comes next and how long the current
/// word has been waited for.
#[derive(Debug, Clone, Copy, PartialEq, Eq, Structural)]
pub struct BlockRead {
    pub word: u8,
    pub spins: u32,
}

impl BlockRead {
    /// Before the first word.
    pub fn new() -> (r: Self)
        ensures
            r == (BlockRead { word: 0, spins: 0 }),
    {
        BlockRead { word: 0, spins: 0 }
    }

    /// Judges one poll of the receive FIFO's `rx_avail` and the response's
    /// `error` flag: a word beats an error, an error beats a timeout.
    pub fn poll(&mut self, rx_avail: bool, error: bool) -> (r: ReadPoll)
        requires
            old(self).spins < READ_MAX_SPIN,
        ensures
            rx_avail ==> r == ReadPoll::Word && *final(self) == *old(self),
            !rx_avail && error ==> r == ReadPoll::Failed(2) && *final(self) == *old(self),
            !rx_avail && !error ==> final(self).spins == old(self).spins + 1 && final(self).word == old(self).word
                && r == (if old(self).spins + 1 >= READ_MAX_SPIN { ReadPoll::Failed(3) } else { ReadPoll::Wait }),
    {
        if rx_avail {
            return ReadPoll::Word;
        }
        if error {
            return ReadPoll::Failed(2);
        }
        self.spins = self.spins + 1;
        if self.spins >= READ_MAX_SPIN {
            ReadPoll::Failed(3)
        } else {
            ReadPoll::Wait
        }
    }

    /// Stores the word just read and moves to the next one; `true` once all
    /// 128 words of the block are in.
    pub fn take_word(&mut self, buf: &mut [u8; 512], w: u32) -> (done: bool)
        requires
            old(self).word < 128,
        ensures
            final(buf)@ == old(buf)@.take(4 * old(self).word as int) + le_bytes(w) + old(buf)@.skip(
                4 * old(self).word + 4,
            ),
            *final(self) == (BlockRead { word: (old(self).word + 1) as u8, spins: 0 }),
            done == (old(self).word + 1 == 128),
    {
        put_word(buf, self.word as usize, w);
        self.word = self.word + 1;
        self.spins = 0;
        self.word == 128
    }

    /// The failure record of this read: reason, word index, LBA, spins and
    /// the reject snapshot.
    pub fn failure(&self, reason: u8, lba: u32, reject: (u8, u8, u8, u8)) -> (f: ReadFailure)
        ensures
            f == (reason, self.word, lba, self.spins, reject.0, reject.1, reject.2, reject.3),
    {
        (reason, self.word, lba, self.spins, reject.0, reject.1, reject.2, reject.3)
    }
}

/// One step of the bounded wait for the engine before a write: the new wait
/// count, and whether to give up.
pub fn ready_wait(waited: u32, ready: bool) -> (r: (u32, bool))
    requires
        waited < READY_SPIN,
    ensures
        ready ==> r == (waited, false),
        !ready ==> r == ((waited + 1) as u32, waited + 1 >= READY_SPIN),
{
    if ready {
        (waited, false)
    } else {
        (waited + 1, waited + 1 >= READY_SPIN)
    }
}

/// What one poll of a write's response decided.
#[derive(Debug, Clone, Copy, PartialEq, Eq, Structural)]
pub enum WritePoll {
    /// The write completed without error.
    Written,
    /// The write completed with an error.
    Failed,
    /// The spin limit ran out.
    TimedOut,
    /// Keep polling.
    Wait,
}

/// Judges one poll of the response's sticky `done` and `error` flags after
/// `spins` earlier polls; returns the decision and the new spin count.
pub fn write_poll(spins: u32, done: bool, error: bool) -> (r: (WritePoll, u32))
    requires
        spins < WRITE_MAX_SPIN,
    ensures
        done ==> r == ((if error { WritePoll::Failed } else { WritePoll::Written }), spins),
        !done ==> r.1 == spins + 1 && r.0 == (if spins + 1 >= WRITE_MAX_SPIN { WritePoll::TimedOut } else { WritePoll::Wait }),
{
    if done {
        if error {
            (WritePoll::Failed, spins)
        } else {
            (WritePoll::Written, spins)
        }
    } else if spins + 1 >= WRITE_MAX_SPIN {
        (WritePoll::TimedOut, spins + 1)
    } else {
        (WritePoll::Wait, spins + 1)
    }
}

} // verus!
