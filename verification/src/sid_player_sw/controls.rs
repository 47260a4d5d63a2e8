//! The player's two-card menu: what an encoder turn or press does to the
//! menu state, and which hardware action the main loop must then perform.
use vstd::prelude::*;
use crate::sid_player::sid_scan::MAX_SIDS;

verus! {

/// Selectable scope timebases on the Scope card.
pub const N_TIMEBASES: usize = 13;
/// Selectable vertical scales on the Scope card.
pub const N_VSCALES: usize = 8;

/// Top-level menu card. Row 0 of every card selects the card.
#[derive(Clone, Copy, PartialEq, Eq, Debug, Structural)]
pub enum Page {
    Player,
    Scope,
}

/// Row count of a card, the card-selector row included.
pub open spec fn page_rows(p: Page) -> int {
    match p {
        Page::Player => 5,
        Page::Scope => 6,
    }
}

/// Row count of a card, the card-selector row included.
pub fn rows_in(page: Page) -> (n: usize)
    ensures
        n == page_rows(page),
{
    match page {
        Page::Player => 5,
        Page::Scope => 6,
    }
}

/// `x` held to `lo..=hi`.
pub open spec fn clamp(x: int, lo: int, hi: int) -> int {
    if x < lo {
        lo
    } else if x > hi {
        hi
    } else {
        x
    }
}

/// `v + ticks` held to `lo..=hi`.
fn step_clamped(v: i16, ticks: i8, lo: i16, hi: i16) -> (r: i16)
    requires
        lo <= hi,
        i16::MIN <= v + ticks <= i16::MAX,
    ensures
        r == clamp(v + ticks, lo as int, hi as int),
{
    let x = v + ticks as i16;
    if x < lo {
        lo
    } else if x > hi {
        hi
    } else {
        x
    }
}

/// What the main loop must do after a turn.
#[derive(Clone, Copy, PartialEq, Eq, Debug, Structural)]
pub enum TurnAction {
    /// The focus moved; nothing else changed.
    Select,
    /// The card changed (the focus is back on the card row).
    PageSwitched,
    /// The file browse cursor moved (no file is loaded yet).
    Browse,
    /// Restart the current tune at this 1-based subtune.
    Subtune(u16),
    /// Retune the SID clock for this Clock choice (0 = AUTO, 1 = PAL, 2 = NTSC).
    Clock(usize),
    /// Apply this scope persistence.
    Decay(u8),
    /// Apply this timebase index.
    Timebase(usize),
    /// Apply this vertical scale index.
    YScale(usize),
    /// Apply this trace intensity.
    Intensity(u8),
    /// Apply this trace hue.
    Hue(u8),
    /// Nothing to do.
    Idle,
}

/// What the main loop must do after a press.
#[derive(Clone, Copy, PartialEq, Eq, Debug, Structural)]
pub enum PressAction {
    /// Edit mode was toggled on the focused row.
    ToggleModify,
    /// File browsing started at the playing file.
    StartBrowse,
    /// Load this file index and, if it is a supported tune, play it.
    Load(usize),
    /// File browsing ended on the playing file: nothing to load.
    Close,
    /// Playback was paused (`true`) or resumed (`false`): mute accordingly.
    Pause(bool),
    /// Nothing to do.
    Idle,
}

/// How much of the header the next repaint must clear first.
#[derive(Clone, Copy, PartialEq, Eq, Debug, Structural)]
pub enum Redraw {
    /// No clear: the text is simply redrawn.
    Keep,
    /// Clear the whole header (every row changes).
    Full,
    /// Clear one row's band (one value changed).
    Row(usize),
}

/// The menu state of the player screen.
#[derive(Clone, Copy, Debug)]
pub struct Controls {
    pub page: Page,
    pub selected: usize,
    pub modify: bool,
    pub browse_idx: usize,
    pub decay: u8,
    pub tb_idx: usize,
    pub ys_idx: usize,
    pub intensity: u8,
    pub hue: u8,
    /// 0 = AUTO (follow the PSID header), 1 = force PAL, 2 = force NTSC.
    pub clock_sel: usize,
    pub paused: bool,
    /// The last file chosen was not a playable tune.
    pub unsupported: bool,
    pub current_file: usize,
    /// The playing subtune, 1-based.
    pub subtune: u16,
}

/// Whether a subtune edit by `ticks` stays inside the arithmetic the player
/// does (a 16-bit signed sum held to `1..=songs`).
pub open spec fn subtune_edit_ok(subtune: u16, ticks: i8, songs: u16) -> bool {
    &&& songs <= i16::MAX
    &&& i16::MIN <= (subtune as i16) + ticks <= i16::MAX
}

impl Controls {
    /// Every cursor inside its range.
    pub open spec fn wf(&self) -> bool {
        &&& self.selected < page_rows(self.page)
        &&& self.browse_idx < MAX_SIDS
        &&& 1 <= self.decay <= 80
        &&& self.tb_idx < N_TIMEBASES
        &&& self.ys_idx < N_VSCALES
        &&& self.intensity <= 15
        &&& self.hue <= 15
        &&& self.clock_sel <= 2
        &&& self.current_file < MAX_SIDS
    }

    /// The state at power-on, playing `subtune` of the first tune.
    pub fn new(subtune: u16) -> (c: Self)
        ensures
            c.wf(),
            c.page == Page::Player,
            c.selected == 0,
            !c.modify,
            c.browse_idx == 0,
            c.decay == 10,
            c.tb_idx == 7,
            c.ys_idx == 2,
            c.intensity == 8,
            c.hue == 0,
            c.clock_sel == 0,
            !c.paused,
            !c.unsupported,
            c.current_file == 0,
            c.subtune == subtune,
    {
        Controls {
            page: Page::Player,
            selected: 0,
            modify: false,
            browse_idx: 0,
            decay: 10,
            tb_idx: 7,
            ys_idx: 2,
            intensity: 8,
            hue: 0,
            clock_sel: 0,
            paused: false,
            unsupported: false,
            current_file: 0,
            subtune,
        }
    }

    /// An encoder turn of `ticks` detents. Outside edit mode it moves the
    /// focus over the card's rows; in edit mode it changes the focused value,
    /// each held to its range. `n_files` is the number of listed tunes and
    /// `songs` the subtune count of the playing tune.
    pub fn on_ticks(&mut self, ticks: i8, n_files: usize, songs: u16) -> (r: (TurnAction, Redraw))
        requires
            old(self).wf(),
            n_files <= MAX_SIDS,
            old(self).modify && old(self).page == Page::Player && old(self).selected == 2
                && songs > 1 ==> subtune_edit_ok(old(self).subtune, ticks, songs),
        ensures
            final(self).wf(),
            !old(self).modify ==> ({
                &&& *final(self) == Controls {
                    selected: clamp(old(self).selected + ticks, 0, page_rows(old(self).page) - 1) as usize,
                    ..*old(self)
                }
                &&& r == (TurnAction::Select, Redraw::Keep)
            }),
            old(self).modify && old(self).selected == 0 ==> ({
                let cur: int = if old(self).page == Page::Player { 0 } else { 1 };
                let p = if clamp(cur + ticks, 0, 1) == 0 { Page::Player } else { Page::Scope };
                &&& *final(self) == Controls { page: p, selected: 0, ..*old(self) }
                &&& r == (TurnAction::PageSwitched, Redraw::Full)
            }),
            old(self).modify && old(self).selected != 0 ==> r.1 == Redraw::Row(old(self).selected),
            old(self).modify && old(self).page == Page::Player && old(self).selected == 1 ==> ({
                &&& n_files > 0 ==> *final(self) == Controls {
                    browse_idx: clamp(old(self).browse_idx + ticks, 0, n_files - 1) as usize,
                    ..*old(self)
                }
                &&& n_files == 0 ==> *final(self) == *old(self)
                &&& r.0 == TurnAction::Browse
            }),
            old(self).modify && old(self).page == Page::Player && old(self).selected == 2 ==> ({
                &&& songs > 1 ==> ({
                    let s = clamp((old(self).subtune as i16) + ticks, 1, songs as int) as u16;
                    &&& *final(self) == Controls { subtune: s, ..*old(self) }
                    &&& r.0 == TurnAction::Subtune(s)
                })
                &&& songs <= 1 ==> *final(self) == *old(self) && r.0 == TurnAction::Idle
            }),
            old(self).modify && old(self).page == Page::Player && old(self).selected == 3 ==> ({
                let c = clamp(old(self).clock_sel + ticks, 0, 2) as usize;
                &&& *final(self) == Controls { clock_sel: c, ..*old(self) }
                &&& r.0 == TurnAction::Clock(c)
            }),
            old(self).modify && old(self).page == Page::Player && old(self).selected == 4 ==> ({
                &&& *final(self) == *old(self)
                &&& r.0 == TurnAction::Idle
            }),
            old(self).modify && old(self).page == Page::Scope && old(self).selected == 1 ==> ({
                let d = clamp(old(self).decay + ticks, 1, 80) as u8;
                &&& *final(self) == Controls { decay: d, ..*old(self) }
                &&& r.0 == TurnAction::Decay(d)
            }),
            old(self).modify && old(self).page == Page::Scope && old(self).selected == 2 ==> ({
                let t = clamp(old(self).tb_idx + ticks, 0, N_TIMEBASES - 1) as usize;
                &&& *final(self) == Controls { tb_idx: t, ..*old(self) }
                &&& r.0 == TurnAction::Timebase(t)
            }),
            old(self).modify && old(self).page == Page::Scope && old(self).selected == 3 ==> ({
                let y = clamp(old(self).ys_idx + ticks, 0, N_VSCALES - 1) as usize;
                &&& *final(self) == Controls { ys_idx: y, ..*old(self) }
                &&& r.0 == TurnAction::YScale(y)
            }),
            old(self).modify && old(self).page == Page::Scope && old(self).selected == 4 ==> ({
                let v = clamp(old(self).intensity + ticks, 0, 15) as u8;
                &&& *final(self) == Controls { intensity: v, ..*old(self) }
                &&& r.0 == TurnAction::Intensity(v)
            }),
            old(self).modify && old(self).page == Page::Scope && old(self).selected == 5 ==> ({
                let h = clamp(old(self).hue + ticks, 0, 15) as u8;
                &&& *final(self) == Controls { hue: h, ..*old(self) }
                &&& r.0 == TurnAction::Hue(h)
            }),
    {
        if !self.modify {
            let hi = rows_in(self.page) as i16 - 1;
            self.selected = step_clamped(self.selected as i16, ticks, 0, hi) as usize;
            return (TurnAction::Select, Redraw::Keep);
        }
        let action = if self.selected == 0 {
            let cur: i16 = if self.page == Page::Player { 0 } else { 1 };
            self.page = if step_clamped(cur, ticks, 0, 1) == 0 { Page::Player } else { Page::Scope };
            self.selected = 0;
            TurnAction::PageSwitched
        } else {
            match self.page {
                Page::Player => {
                    if self.selected == 1 {
                        if n_files > 0 {
                            let hi = n_files as i16 - 1;
                            self.browse_idx = step_clamped(self.browse_idx as i16, ticks, 0, hi) as usize;
                        }
                        TurnAction::Browse
                    } else if self.selected == 2 {
                        if songs > 1 {
                            let s = step_clamped(self.subtune as i16, ticks, 1, songs as i16) as u16;
                            self.subtune = s;
                            TurnAction::Subtune(s)
                        } else {
                            TurnAction::Idle
                        }
                    } else if self.selected == 3 {
                        let c = step_clamped(self.clock_sel as i16, ticks, 0, 2) as usize;
                        self.clock_sel = c;
                        TurnAction::Clock(c)
                    } else {
                        TurnAction::Idle
                    }
                },
                Page::Scope => {
                    if self.selected == 1 {
                        let d = step_clamped(self.decay as i16, ticks, 1, 80) as u8;
                        self.decay = d;
                        TurnAction::Decay(d)
                    } else if self.selected == 2 {
                        let hi = N_TIMEBASES as i16 - 1;
                        let t = step_clamped(self.tb_idx as i16, ticks, 0, hi) as usize;
                        self.tb_idx = t;
                        TurnAction::Timebase(t)
                    } else if self.selected == 3 {
                        let hi = N_VSCALES as i16 - 1;
                        let y = step_clamped(self.ys_idx as i16, ticks, 0, hi) as usize;
                        self.ys_idx = y;
                        TurnAction::YScale(y)
                    } else if self.selected == 4 {
                        let v = step_clamped(self.intensity as i16, ticks, 0, 15) as u8;
                        self.intensity = v;
                        TurnAction::Intensity(v)
                    } else {
                        let h = step_clamped(self.hue as i16, ticks, 0, 15) as u8;
                        self.hue = h;
                        TurnAction::Hue(h)
                    }
                },
            }
        };
        let redraw = if self.selected == 0 { Redraw::Full } else { Redraw::Row(self.selected) };
        (action, redraw)
    }

    /// An encoder press on the focused row. The card row, the Song and Clock
    /// rows and every Scope row toggle edit mode; the File row starts
    /// browsing at the playing file, or ends it and asks for a load when
    /// another file was chosen; the State row pauses or resumes.
    pub fn on_press(&mut self, n_files: usize) -> (r: (PressAction, Redraw))
        requires
            old(self).wf(),
        ensures
            final(self).wf(),
            r.1 == Redraw::Row(old(self).selected),
            old(self).selected == 0 || old(self).page == Page::Scope || old(self).selected == 2
                || old(self).selected == 3 ==> ({
                &&& *final(self) == Controls { modify: !old(self).modify, ..*old(self) }
                &&& r.0 == PressAction::ToggleModify
            }),
            old(self).page == Page::Player && old(self).selected == 1 ==> ({
                &&& n_files == 0 ==> *final(self) == *old(self) && r.0 == PressAction::Idle
                &&& n_files > 0 && !old(self).modify ==> ({
                    &&& *final(self) == Controls {
                        modify: true,
                        browse_idx: old(self).current_file,
                        ..*old(self)
                    }
                    &&& r.0 == PressAction::StartBrowse
                })
                &&& n_files > 0 && old(self).modify ==> ({
                    &&& *final(self) == Controls { modify: false, ..*old(self) }
                    &&& r.0 == (if old(self).browse_idx != old(self).current_file {
                        PressAction::Load(old(self).browse_idx)
                    } else {
                        PressAction::Close
                    })
                })
            }),
            old(self).page == Page::Player && old(self).selected == 4 ==> ({
                &&& *final(self) == Controls { paused: !old(self).paused, ..*old(self) }
                &&& r.0 == PressAction::Pause(!old(self).paused)
            }),
    {
        let sel = self.selected;
        let action = if sel == 0 || self.page == Page::Scope || sel == 2 || sel == 3 {
            self.modify = !self.modify;
            PressAction::ToggleModify
        } else if sel == 1 {
            if n_files == 0 {
                PressAction::Idle
            } else if !self.modify {
                self.modify = true;
                self.browse_idx = self.current_file;
                PressAction::StartBrowse
            } else {
                self.modify = false;
                if self.browse_idx != self.current_file {
                    PressAction::Load(self.browse_idx)
                } else {
                    PressAction::Close
                }
            }
        } else {
            self.paused = !self.paused;
            PressAction::Pause(self.paused)
        };
        (action, Redraw::Row(sel))
    }

    /// File `file` was loaded and started at subtune `start`: it is the
    /// playing file, playback runs and the unsupported flag is cleared.
    pub fn tune_started(&mut self, file: usize, start: u16)
        requires
            old(self).wf(),
            file < MAX_SIDS,
        ensures
            final(self).wf(),
            *final(self) == (Controls {
                current_file: file,
                subtune: start,
                paused: false,
                unsupported: false,
                ..*old(self)
            }),
    {
        self.current_file = file;
        self.subtune = start;
        self.paused = false;
        self.unsupported = false;
    }

    /// The playing tune restarted at a new subtune: playback runs.
    pub fn resumed(&mut self)
        requires
            old(self).wf(),
        ensures
            final(self).wf(),
            *final(self) == (Controls { paused: false, ..*old(self) }),
    {
        self.paused = false;
    }

    /// The chosen file is not a playable tune; the playing one goes on.
    pub fn rejected(&mut self)
        requires
            old(self).wf(),
        ensures
            final(self).wf(),
            *final(self) == (Controls { unsupported: true, ..*old(self) }),
    {
        self.unsupported = true;
    }

    /// The State row's text.
    pub fn state_label(&self) -> (l: &'static str)
        ensures
            self.unsupported ==> l@ == "UNSUPPORTED!"@,
            !self.unsupported && self.paused ==> l@ == "PAUSED"@,
            !self.unsupported && !self.paused ==> l@ == "PLAYING"@,
    {
        if self.unsupported {
            "UNSUPPORTED!"
        } else if self.paused {
            "PAUSED"
        } else {
            "PLAYING"
        }
    }
}

/// A row's label on a card.
pub fn row_label(page: Page, n: usize) -> (l: &'static str)
    ensures
        n == 0 ==> l@ == "Menu"@,
        page == Page::Player && n == 1 ==> l@ == "File"@,
        page == Page::Player && n == 2 ==> l@ == "Song"@,
        page == Page::Player && n == 3 ==> l@ == "Clock"@,
        page == Page::Player && n >= 4 ==> l@ == "State"@,
        page == Page::Scope && n == 1 ==> l@ == "Decay"@,
        page == Page::Scope && n == 2 ==> l@ == "Timebase"@,
        page == Page::Scope && n == 3 ==> l@ == "Y-Scale"@,
        page == Page::Scope && n == 4 ==> l@ == "Intensity"@,
        page == Page::Scope && n >= 5 ==> l@ == "Hue"@,
{
    if n == 0 {
        return "Menu";
    }
    match page {
        Page::Player => {
            if n == 1 {
                "File"
            } else if n == 2 {
                "Song"
            } else if n == 3 {
                "Clock"
            } else {
                "State"
            }
        },
        Page::Scope => {
            if n == 1 {
                "Decay"
            } else if n == 2 {
                "Timebase"
            } else if n == 3 {
                "Y-Scale"
            } else if n == 4 {
                "Intensity"
            } else {
                "Hue"
            }
        },
    }
}

/// Whether the menu is repainted in this pass of the main loop: on any
/// input or pending clear, or once a display frame's worth of play ticks has
/// gone by (`elapsed_ticks * 60 >= play_hz`).
pub fn repaint_due(input: bool, elapsed_ticks: u32, play_hz: u32) -> (r: bool)
    ensures
        r == (input || elapsed_ticks * 60 >= play_hz),
{
    input || (elapsed_ticks as u64) * 60 >= play_hz as u64
}

} // verus!
