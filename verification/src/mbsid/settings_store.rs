//! Persisted menu settings: one 16-byte record in the option-storage flash
//! window. Layout: `MBS5` | version | midi_src | cv_targets[4] | usb_mode |
//! reserved[4] | chk, where `chk` makes the whole record sum to zero modulo
//! 256. Versions 1 and 2 decode; any validation failure loads the defaults.
use vstd::prelude::*;
use crate::mbsid::nor_store::{NorStore, NorOp, nor_erase, nor_program, err_of};

verus! {

pub const VERSION: u8 = 2;
pub const RECORD_LEN: usize = 16;

/// The menu settings that survive a power cycle.
#[derive(Clone, Copy, PartialEq, Eq, Debug)]
pub struct Settings {
    /// 0 = TRS, 1 = USB.
    pub midi_src: u8,
    /// One CV target code per CV input.
    pub cv_targets: [u8; 4],
    /// 0 = MIDI, 1 = Storage.
    pub usb_mode: u8,
}

impl Default for Settings {
    fn default() -> (s: Self)
        ensures
            s == default_settings(),
    {
        Settings { midi_src: 0, cv_targets: [0u8, 0u8, 0u8, 0u8], usb_mode: 0 }
    }
}

/// TRS MIDI, every CV input off, USB in MIDI mode.
pub open spec fn default_settings() -> Settings {
    Settings { midi_src: 0, cv_targets: [0u8, 0u8, 0u8, 0u8], usb_mode: 0 }
}

/// The sum of the bytes of `s`.
pub open spec fn sum_bytes(s: Seq<u8>) -> int
    decreases s.len(),
{
    if s.len() == 0 {
        0
    } else {
        sum_bytes(s.drop_last()) + s.last()
    }
}

/// The first fifteen bytes of the record for `s`.
pub open spec fn record_body(s: Settings) -> Seq<u8> {
    seq![
        0x4Du8, 0x42u8, 0x53u8, 0x35u8, VERSION, s.midi_src,
        s.cv_targets[0], s.cv_targets[1], s.cv_targets[2], s.cv_targets[3],
        s.usb_mode, 0u8, 0u8, 0u8, 0u8,
    ]
}

/// The byte that makes `body` sum to zero modulo 256.
pub open spec fn balance_byte(body: Seq<u8>) -> u8 {
    ((256 - sum_bytes(body) % 256) % 256) as u8
}

/// The 16-byte record for `s`.
pub open spec fn record_of(s: Settings) -> Seq<u8> {
    record_body(s).push(balance_byte(record_body(s)))
}

/// The settings a record holds, if its magic, version and checksum are valid.
pub open spec fn settings_of(r: Seq<u8>) -> Option<Settings> {
    if r.len() == 16 && r[0] == 0x4D && r[1] == 0x42 && r[2] == 0x53 && r[3] == 0x35 && (r[4] == 1 || r[4]
        == 2) && sum_bytes(r) % 256 == 0 {
        Some(
            Settings {
                midi_src: r[5],
                cv_targets: [r[6], r[7], r[8], r[9]],
                usb_mode: r[10] & 1,
            },
        )
    } else {
        None
    }
}

fn wrapping_sum(r: &[u8; 16], n: usize) -> (s: u8)
    requires
        n <= 16,
    ensures
        s == sum_bytes(r@.take(n as int)) % 256,
{
    let mut a: u8 = 0;
    let mut i: usize = 0;
    while i < n
        invariant
            i <= n <= 16,
            r@.len() == 16,
            a == sum_bytes(r@.take(i as int)) % 256,
        decreases n - i,
    {
        assert(r@.take(i as int + 1).drop_last() =~= r@.take(i as int));
        a = a.wrapping_add(r[i]);
        i = i + 1;
    }
    a
}

fn same_record(a: &[u8; 16], b: &[u8; 16]) -> (r: bool)
    ensures
        r == (a@ == b@),
{
    let mut i: usize = 0;
    while i < 16
        invariant
            i <= 16,
            a@.len() == 16,
            b@.len() == 16,
            forall|k: int| 0 <= k < i ==> a@[k] == b@[k],
        decreases 16 - i,
    {
        if a[i] != b[i] {
            return false;
        }
        i = i + 1;
    }
    assert(a@ =~= b@);
    true
}

/// The 16-byte record for `s`.
pub fn encode(s: &Settings) -> (r: [u8; 16])
    ensures
        r@ == record_of(*s),
{
    let mut r = [0u8; 16];
    r[0] = 0x4D;
    r[1] = 0x42;
    r[2] = 0x53;
    r[3] = 0x35;
    r[4] = VERSION;
    r[5] = s.midi_src;
    r[6] = s.cv_targets[0];
    r[7] = s.cv_targets[1];
    r[8] = s.cv_targets[2];
    r[9] = s.cv_targets[3];
    r[10] = s.usb_mode;
    proof {
        assert(r@.take(15) =~= record_body(*s));
    }
    let sum = wrapping_sum(&r, 15);
    r[15] = 0u8.wrapping_sub(sum);
    proof {
        assert(r@ =~= record_of(*s));
    }
    r
}

/// The settings a record holds, or `None` when its magic, version or
/// checksum is wrong.
pub fn decode(r: &[u8; 16]) -> (s: Option<Settings>)
    ensures
        s == settings_of(r@),
{
    if r[0] != 0x4D || r[1] != 0x42 || r[2] != 0x53 || r[3] != 0x35 || !(r[4] == 1 || r[4] == 2) {
        return None;
    }
    if wrapping_sum(r, 16) != 0 {
        proof {
            assert(r@.take(16) =~= r@);
        }
        return None;
    }
    proof {
        assert(r@.take(16) =~= r@);
    }
    let cv = [r[6], r[7], r[8], r[9]];
    Some(Settings { midi_src: r[5], cv_targets: cv, usb_mode: r[10] & 1 })
}

/// The settings stored at `base`, or the defaults when the record cannot be
/// read or is invalid.
pub fn load<F: NorStore>(flash: &mut F, base: u32) -> (s: Settings)
    ensures
        final(flash).contents() == old(flash).contents(),
        s == default_settings() || (base + 16 <= old(flash).contents().len() && settings_of(
            old(flash).contents().subrange(base as int, base + 16),
        ) == Some(s)),
        base + 16 <= old(flash).contents().len() && settings_of(
            old(flash).contents().subrange(base as int, base + 16),
        ) is None ==> s == default_settings(),
        old(flash).reliable() ==> final(flash).reliable(),
        old(flash).reliable() && base + 16 <= old(flash).contents().len() && settings_of(
            old(flash).contents().subrange(base as int, base + 16),
        ) is Some ==> settings_of(old(flash).contents().subrange(base as int, base + 16)) == Some(s),
{
    let mut r = [0u8; 16];
    if flash.read(base, &mut r).is_err() {
        return Settings::default();
    }
    proof {
        assert(r@ =~= old(flash).contents().subrange(base as int, base + 16));
    }
    match decode(&r) {
        Some(s) => s,
        None => Settings::default(),
    }
}

/// Stores `s` at `base`, skipping the erase when the stored record is already
/// identical.
pub fn save<F: NorStore>(flash: &mut F, base: u32, s: &Settings) -> (r: Result<(), F::Error>)
    requires
        base + 4096 <= u32::MAX,
    ensures
        final(flash).contents().len() == old(flash).contents().len(),
        old(flash).reliable() ==> final(flash).reliable(),
        old(flash).reliable() && base + 4096 <= old(flash).contents().len() ==> r is Ok,
        old(flash).reliable() && base + 16 <= old(flash).contents().len() && old(flash).contents().subrange(
            base as int,
            base + 16,
        ) == record_of(*s) ==> final(flash).ops() == old(flash).ops() && final(flash).contents() == old(
            flash,
        ).contents() && r is Ok,
        ({
            let l = old(flash).ops();
            let e = NorOp::Erase(base, (base + 4096) as u32);
            ||| (final(flash).ops() == l && r is Ok)
            ||| (final(flash).ops() == l.push((e, err_of(r))) && r is Err)
            ||| final(flash).ops() == l.push((e, None)).push((NorOp::Write(base, record_of(*s)), err_of(r)))
        }),
        r is Ok ==> {
            ||| (final(flash).contents() == old(flash).contents() && base + 16 <= old(flash).contents().len()
                && old(flash).contents().subrange(base as int, base + 16) == record_of(*s))
            ||| final(flash).contents() == nor_program(
                nor_erase(old(flash).contents(), base as int, base + 4096),
                base as int,
                record_of(*s),
            )
        },
{
    let rec = encode(s);
    let mut cur = [0u8; 16];
    if flash.read(base, &mut cur).is_ok() && same_record(&cur, &rec) {
        return Ok(());
    }
    let erased = flash.erase(base, base + 4096);
    if erased.is_err() {
        return erased;
    }
    flash.write(base, &rec)
}

/// Decoding the record of `s` gives `s` back whenever its USB mode is a
/// valid mode (0 or 1).
pub proof fn lemma_record_roundtrip(s: Settings)
    requires
        s.usb_mode <= 1,
    ensures
        settings_of(record_of(s)) == Some(s),
{
    let r = record_of(s);
    let body = record_body(s);
    assert(r.drop_last() =~= body);
    let u = s.usb_mode;
    assert(u & 1 == u) by (bit_vector)
        requires
            u <= 1,
    ;
    assert([r[6], r[7], r[8], r[9]] =~= s.cv_targets);
}

proof fn lemma_erased_programmed(m: Seq<u8>, base: int, rec: Seq<u8>)
    requires
        0 <= base,
        base + 4096 <= m.len(),
        rec.len() == 16,
    ensures
        nor_program(nor_erase(m, base, base + 4096), base, rec).subrange(base, base + 16) == rec,
{
    let p = nor_program(nor_erase(m, base, base + 4096), base, rec);
    assert forall|i: int| 0 <= i < 16 implies p[base + i] == rec[i] by {
        let x = rec[i];
        assert((0xFFu8 & x) == x) by (bit_vector);
    }
    assert(p.subrange(base, base + 16) =~= rec);
}

/// A successful save leaves the record of `s` at `base`, so a later load
/// returns `s` whenever its USB mode is valid.
pub proof fn lemma_saved_settings_load(m: Seq<u8>, m2: Seq<u8>, base: int, s: Settings)
    requires
        0 <= base,
        base + 4096 <= m.len(),
        s.usb_mode <= 1,
        (m2 == m && m.subrange(base, base + 16) == record_of(s)) || m2 == nor_program(
            nor_erase(m, base, base + 4096),
            base,
            record_of(s),
        ),
    ensures
        settings_of(m2.subrange(base, base + 16)) == Some(s),
{
    if m2 != m || m.subrange(base, base + 16) != record_of(s) {
        lemma_erased_programmed(m, base, record_of(s));
    }
    lemma_record_roundtrip(s);
}

} // verus!
