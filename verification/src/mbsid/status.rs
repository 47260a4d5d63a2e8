//! The menu status line: its text and the time it was set, always written
//! together, and the text of every message the firmware shows.
use vstd::prelude::*;
use vstd::string::StringSliceAdditionalSpecFns;
use crate::mbsid::bank_import::ImportOutcome;
use crate::mbsid::menu::ExportSource;
use crate::mbsid::uptime::{ttl_expired, elapsed_ms};
use crate::outside::{status_bytes, status_new, status_push_str, status_push_ascii, status_as_str};

verus! {

/// How long a status message stays on screen before it clears itself.
pub const TTL_MS: u32 = 3000;

/// The menu's transient status line.
pub struct Status {
    text: Option<heapless::String<24>>,
    set_at: Option<u32>,
}

/// The bytes of a status text, if any.
pub open spec fn text_of(t: Option<heapless::String<24>>) -> Option<Seq<u8>> {
    match t {
        Some(s) => Some(status_bytes(s)),
        None => None,
    }
}

impl Status {
    /// The text shown.
    pub closed spec fn shown(&self) -> Option<Seq<u8>> {
        text_of(self.text)
    }

    /// When the text was set.
    pub closed spec fn since(&self) -> Option<u32> {
        self.set_at
    }

    /// A text is shown exactly when it has a time it was set.
    pub closed spec fn wf(&self) -> bool {
        self.text is Some <==> self.set_at is Some
    }

    /// Nothing shown.
    pub fn new() -> (s: Self)
        ensures
            s.wf(),
            s.shown() is None,
            s.since() is None,
    {
        Status { text: None, set_at: None }
    }

    /// Shows `s` from `now` on, restarting the time to live.
    pub fn set(&mut self, s: heapless::String<24>, now: u32)
        ensures
            final(self).wf(),
            final(self).shown() == Some(status_bytes(s)),
            final(self).since() == Some(now),
    {
        self.text = Some(s);
        self.set_at = Some(now);
    }

    /// Removes the text.
    pub fn clear(&mut self)
        ensures
            final(self).wf(),
            final(self).shown() is None,
            final(self).since() is None,
    {
        self.text = None;
        self.set_at = None;
    }

    /// Clears a text that has been shown for the time to live; `true`
    /// exactly when it cleared one, so a caller repaints once per expiry.
    pub fn expire(&mut self, now: u32) -> (dirty: bool)
        requires
            old(self).wf(),
        ensures
            final(self).wf(),
            dirty == (old(self).since() matches Some(t) && elapsed_ms(t, now) >= TTL_MS),
            dirty ==> final(self).shown() is None && final(self).since() is None,
            !dirty ==> final(self).shown() == old(self).shown() && final(self).since() == old(self).since(),
    {
        if ttl_expired(self.set_at, now, TTL_MS) {
            self.clear();
            true
        } else {
            false
        }
    }

    /// The text shown, if any.
    pub fn as_deref(&self) -> (t: Option<&str>)
        ensures
            match self.shown() {
                Some(b) => t matches Some(s) && s.spec_bytes() == b,
                None => t is None,
            },
    {
        match &self.text {
            Some(s) => Some(status_as_str(s)),
            None => None,
        }
    }
}

impl Default for Status {
    fn default() -> (s: Self)
        ensures
            s.wf(),
            s.shown() is None,
            s.since() is None,
    {
        Status::new()
    }
}

/// The three decimal digits of `n` (`{:03}`).
pub open spec fn dec3(n: u8) -> Seq<u8> {
    seq![(0x30 + n / 100) as u8, (0x30 + n / 10 % 10) as u8, (0x30 + n % 10) as u8]
}

/// The decimal digits of `n` without padding (`{}`).
pub open spec fn dec(n: u8) -> Seq<u8> {
    if n < 10 {
        seq![(0x30 + n) as u8]
    } else if n < 100 {
        seq![(0x30 + n / 10) as u8, (0x30 + n % 10) as u8]
    } else {
        dec3(n)
    }
}

/// A status text holding `prefix`.
fn start_with(prefix: &str) -> (s: heapless::String<24>)
    requires
        prefix.spec_bytes().len() <= 21,
    ensures
        status_bytes(s) == prefix.spec_bytes(),
{
    let mut s = status_new();
    let _ = status_push_str(&mut s, prefix);
    assert(Seq::<u8>::empty() + prefix.spec_bytes() =~= prefix.spec_bytes());
    s
}

/// Appends the digits of `n`, zero-padded to three when `pad` is set.
fn push_num(s: &mut heapless::String<24>, n: u8, pad: bool)
    requires
        status_bytes(*old(s)).len() <= 21,
    ensures
        status_bytes(*final(s)) == status_bytes(*old(s)) + if pad {
            dec3(n)
        } else {
            dec(n)
        },
{
    let ghost s0 = status_bytes(*s);
    if pad || n >= 100 {
        let _ = status_push_ascii(s, 0x30 + n / 100);
    }
    if pad || n >= 10 {
        let _ = status_push_ascii(s, 0x30 + n / 10 % 10);
    }
    let _ = status_push_ascii(s, 0x30 + n % 10);
    proof {
        if pad || n >= 100 {
            assert(status_bytes(*s) =~= s0 + dec3(n));
        } else if n >= 10 {
            assert(status_bytes(*s) =~= s0 + dec(n));
        } else {
            assert(status_bytes(*s) =~= s0 + dec(n));
        }
    }
}

/// On-device save to user slot `slot`: `Saved U007` or `Save FAILED U007`.
pub fn saved(ok: bool, slot: u8) -> (s: heapless::String<24>)
    ensures
        status_bytes(s) == (if ok { "Saved U" } else { "Save FAILED U" }).spec_bytes() + dec3(slot),
{
    proof {
        broadcast use vstd::string::is_ascii_spec_bytes;

        reveal_strlit("Saved U");
        assert(vstd::string::is_ascii("Saved U"));
        reveal_strlit("Save FAILED U");
        assert(vstd::string::is_ascii("Save FAILED U"));
    }
    let mut s = if ok {
        start_with("Saved U")
    } else {
        start_with("Save FAILED U")
    };
    push_num(&mut s, slot, true);
    s
}

/// The USB patch file could not be read or parsed.
pub fn usb_load_failed() -> (s: heapless::String<24>)
    ensures
        status_bytes(s) == "USB load FAILED".spec_bytes(),
{
    proof {
        broadcast use vstd::string::is_ascii_spec_bytes;

        reveal_strlit("USB load FAILED");
        assert(vstd::string::is_ascii("USB load FAILED"));
    }
    start_with("USB load FAILED")
}

/// A USB patch file loaded into the engine: `Loaded -> U042` when also
/// saved to user slot 42, `Save FAILED U042` when that save failed, and
/// `Loaded (audition)` when it was not saved.
pub fn usb_loaded(slot: Option<u8>, saved_ok: bool) -> (s: heapless::String<24>)
    ensures
        status_bytes(s) == match slot {
            Some(n) => (if saved_ok { "Loaded -> U" } else { "Save FAILED U" }).spec_bytes() + dec3(n),
            None => "Loaded (audition)".spec_bytes(),
        },
{
    proof {
        broadcast use vstd::string::is_ascii_spec_bytes;

        reveal_strlit("Loaded -> U");
        assert(vstd::string::is_ascii("Loaded -> U"));
        reveal_strlit("Save FAILED U");
        assert(vstd::string::is_ascii("Save FAILED U"));
        reveal_strlit("Loaded (audition)");
        assert(vstd::string::is_ascii("Loaded (audition)"));
    }
    match slot {
        Some(n) => {
            let mut s = if saved_ok {
                start_with("Loaded -> U")
            } else {
                start_with("Save FAILED U")
            };
            push_num(&mut s, n, true);
            s
        },
        None => start_with("Loaded (audition)"),
    }
}

/// The outcome of a whole-bank import; `None` when the drive would not mount.
pub fn imported(outcome: Option<ImportOutcome>) -> (s: heapless::String<24>)
    ensures
        status_bytes(s) == match outcome {
            None => "USB mount FAILED".spec_bytes(),
            Some(ImportOutcome::BadFile) => "No/bad BANK.SYX".spec_bytes(),
            Some(ImportOutcome::Failed) => "Import FAILED".spec_bytes(),
            Some(ImportOutcome::Imported(n)) => "Imported ".spec_bytes() + dec(n) + " patches".spec_bytes(),
        },
{
    proof {
        broadcast use vstd::string::is_ascii_spec_bytes;

        reveal_strlit("USB mount FAILED");
        assert(vstd::string::is_ascii("USB mount FAILED"));
        reveal_strlit("No/bad BANK.SYX");
        assert(vstd::string::is_ascii("No/bad BANK.SYX"));
        reveal_strlit("Import FAILED");
        assert(vstd::string::is_ascii("Import FAILED"));
        reveal_strlit("Imported ");
        assert(vstd::string::is_ascii("Imported "));
        reveal_strlit(" patches");
        assert(vstd::string::is_ascii(" patches"));
    }
    match outcome {
        None => start_with("USB mount FAILED"),
        Some(ImportOutcome::BadFile) => start_with("No/bad BANK.SYX"),
        Some(ImportOutcome::Failed) => start_with("Import FAILED"),
        Some(ImportOutcome::Imported(n)) => {
            let mut s = start_with("Imported ");
            push_num(&mut s, n, false);
            let _ = status_push_str(&mut s, " patches");
            s
        },
    }
}

/// A patch export to the drive: `Exported <name>`, where a name that does
/// not fit the 24-byte line is left out, or `Export FAILED`.
pub fn exported(ok: bool, fname: &str) -> (s: heapless::String<24>)
    ensures
        status_bytes(s) == if !ok {
            "Export FAILED".spec_bytes()
        } else if 9 + fname.spec_bytes().len() <= 24 {
            "Exported ".spec_bytes() + fname.spec_bytes()
        } else {
            "Exported ".spec_bytes()
        },
{
    proof {
        broadcast use vstd::string::is_ascii_spec_bytes;

        reveal_strlit("Export FAILED");
        assert(vstd::string::is_ascii("Export FAILED"));
        reveal_strlit("Exported ");
        assert(vstd::string::is_ascii("Exported "));
    }
    if ok {
        let mut s = start_with("Exported ");
        let _ = status_push_str(&mut s, fname);
        s
    } else {
        start_with("Export FAILED")
    }
}

/// The file name a patch export writes: `EDIT.SYX` for the edit buffer,
/// `P007.SYX` for user slot 7.
pub fn export_name(source: ExportSource) -> (s: heapless::String<24>)
    ensures
        status_bytes(s) == match source {
            ExportSource::Edit => "EDIT.SYX".spec_bytes(),
            ExportSource::Slot(n) => "P".spec_bytes() + dec3(n) + ".SYX".spec_bytes(),
        },
{
    proof {
        broadcast use vstd::string::is_ascii_spec_bytes;

        reveal_strlit("EDIT.SYX");
        assert(vstd::string::is_ascii("EDIT.SYX"));
        reveal_strlit("P");
        assert(vstd::string::is_ascii("P"));
        reveal_strlit(".SYX");
        assert(vstd::string::is_ascii(".SYX"));
    }
    match source {
        ExportSource::Edit => start_with("EDIT.SYX"),
        ExportSource::Slot(n) => {
            let mut s = start_with("P");
            push_num(&mut s, n, true);
            let _ = status_push_str(&mut s, ".SYX");
            s
        },
    }
}

} // verus!
