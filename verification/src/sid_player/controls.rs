//! The player's three-row menu (File, Song, State): what an encoder turn or
//! press does to the menu state, and which action the main loop must then
//! perform on the hardware 6502.
use vstd::prelude::*;
use crate::sid_player::sid_scan::MAX_SIDS;

verus! {

/// Rows of the menu: File, Song, State.
pub const N_ROWS: usize = 3;

/// `x` held to `lo..=hi`.
pub open spec fn clamp(x: int, lo: int, hi: int) -> int {
    if x < lo {
        lo
    } else if x > hi {
        hi
    } else {
        x
    }
}

/// `v + ticks` held to `lo..=hi`.
fn step_clamped(v: i16, ticks: i8, lo: i16, hi: i16) -> (r: i16)
    requires
        lo <= hi,
        i16::MIN <= v + ticks <= i16::MAX,
    ensures
        r == clamp(v + ticks, lo as int, hi as int),
{
    let x = v + ticks as i16;
    if x < lo {
        lo
    } else if x > hi {
        hi
    } else {
        x
    }
}

/// What the main loop must do after a turn.
#[derive(Clone, Copy, PartialEq, Eq, Debug, Structural)]
pub enum TurnAction {
    /// The focus moved.
    Select,
    /// The file browse cursor moved (no file is loaded yet).
    Browse,
    /// Rewrite the tune image for this 1-based subtune and restart it,
    /// keeping the pause state.
    Subtune(u16),
    /// Nothing to do.
    Idle,
}

/// What the main loop must do after a press.
#[derive(Clone, Copy, PartialEq, Eq, Debug, Structural)]
pub enum PressAction {
    /// File browsing started at the playing file.
    StartBrowse,
    /// Load this file index and start it.
    Load(usize),
    /// File browsing ended on the playing file: nothing to load.
    Close,
    /// Edit mode was toggled on the Song row.
    ToggleModify,
    /// The play timer's interrupt is to be disabled (`true`) or enabled.
    Pause(bool),
    /// Nothing to do.
    Idle,
}

/// The menu state of the hardware player.
#[derive(Clone, Copy, Debug)]
pub struct Controls {
    /// 0 = File, 1 = Song, 2 = State.
    pub selected: usize,
    pub modify: bool,
    pub browse_idx: usize,
    pub paused: bool,
    pub current_file: usize,
    /// The playing subtune, 1-based.
    pub subtune: u16,
}

/// Whether a subtune edit by `ticks` stays inside the arithmetic the player
/// does (a 16-bit signed sum held to `1..=songs`).
pub open spec fn subtune_edit_ok(subtune: u16, ticks: i8, songs: u16) -> bool {
    &&& songs <= i16::MAX
    &&& i16::MIN <= (subtune as i16) + ticks <= i16::MAX
}

impl Controls {
    /// Every cursor inside its range.
    pub open spec fn wf(&self) -> bool {
        &&& self.selected < N_ROWS
        &&& self.browse_idx < MAX_SIDS
        &&& self.current_file < MAX_SIDS
    }

    /// The state at power-on, playing `subtune` of the first tune.
    pub fn new(subtune: u16) -> (c: Self)
        ensures
            c.wf(),
            c == (Controls {
                selected: 0,
                modify: false,
                browse_idx: 0,
                paused: false,
                current_file: 0,
                subtune,
            }),
    {
        Controls { selected: 0, modify: false, browse_idx: 0, paused: false, current_file: 0, subtune }
    }

    /// An encoder turn of `ticks` detents: outside edit mode it moves the
    /// focus; on File it moves the browse cursor over the `n_files` listed
    /// tunes; on Song it picks a subtune of the `songs` the tune has.
    pub fn on_ticks(&mut self, ticks: i8, n_files: usize, songs: u16) -> (r: TurnAction)
        requires
            old(self).wf(),
            n_files <= MAX_SIDS,
            old(self).modify && old(self).selected == 1 && songs > 1 ==> subtune_edit_ok(
                old(self).subtune,
                ticks,
                songs,
            ),
        ensures
            final(self).wf(),
            !old(self).modify ==> ({
                &&& *final(self) == Controls {
                    selected: clamp(old(self).selected + ticks, 0, N_ROWS - 1) as usize,
                    ..*old(self)
                }
                &&& r == TurnAction::Select
            }),
            old(self).modify && old(self).selected == 0 ==> ({
                &&& n_files > 0 ==> *final(self) == Controls {
                    browse_idx: clamp(old(self).browse_idx + ticks, 0, n_files - 1) as usize,
                    ..*old(self)
                }
                &&& n_files == 0 ==> *final(self) == *old(self)
                &&& r == TurnAction::Browse
            }),
            old(self).modify && old(self).selected == 1 ==> ({
                &&& songs > 1 ==> ({
                    let s = clamp((old(self).subtune as i16) + ticks, 1, songs as int) as u16;
                    &&& *final(self) == Controls { subtune: s, ..*old(self) }
                    &&& r == TurnAction::Subtune(s)
                })
                &&& songs <= 1 ==> *final(self) == *old(self) && r == TurnAction::Idle
            }),
            old(self).modify && old(self).selected == 2 ==> ({
                &&& *final(self) == *old(self)
                &&& r == TurnAction::Idle
            }),
    {
        if !self.modify {
            self.selected = step_clamped(self.selected as i16, ticks, 0, 2) as usize;
            TurnAction::Select
        } else if self.selected == 0 {
            if n_files > 0 {
                let hi = n_files as i16 - 1;
                self.browse_idx = step_clamped(self.browse_idx as i16, ticks, 0, hi) as usize;
            }
            TurnAction::Browse
        } else if self.selected == 1 {
            if songs > 1 {
                let s = step_clamped(self.subtune as i16, ticks, 1, songs as i16) as u16;
                self.subtune = s;
                TurnAction::Subtune(s)
            } else {
                TurnAction::Idle
            }
        } else {
            TurnAction::Idle
        }
    }

    /// An encoder press: on File it starts browsing at the playing file, or
    /// ends it and asks for a load when another file was chosen; on Song it
    /// toggles edit mode; on State it pauses or resumes.
    pub fn on_press(&mut self, n_files: usize) -> (r: PressAction)
        requires
            old(self).wf(),
        ensures
            final(self).wf(),
            old(self).selected == 0 ==> ({
                &&& n_files == 0 ==> *final(self) == *old(self) && r == PressAction::Idle
                &&& n_files > 0 && !old(self).modify ==> ({
                    &&& *final(self) == Controls {
                        modify: true,
                        browse_idx: old(self).current_file,
                        ..*old(self)
                    }
                    &&& r == PressAction::StartBrowse
                })
                &&& n_files > 0 && old(self).modify ==> ({
                    &&& *final(self) == Controls { modify: false, ..*old(self) }
                    &&& r == (if old(self).browse_idx != old(self).current_file {
                        PressAction::Load(old(self).browse_idx)
                    } else {
                        PressAction::Close
                    })
                })
            }),
            old(self).selected == 1 ==> ({
                &&& *final(self) == Controls { modify: !old(self).modify, ..*old(self) }
                &&& r == PressAction::ToggleModify
            }),
            old(self).selected == 2 ==> ({
                &&& *final(self) == Controls { paused: !old(self).paused, ..*old(self) }
                &&& r == PressAction::Pause(!old(self).paused)
            }),
    {
        if self.selected == 0 {
            if n_files == 0 {
                PressAction::Idle
            } else if !self.modify {
                self.modify = true;
                self.browse_idx = self.current_file;
                PressAction::StartBrowse
            } else {
                self.modify = false;
                if self.browse_idx != self.current_file {
                    PressAction::Load(self.browse_idx)
                } else {
                    PressAction::Close
                }
            }
        } else if self.selected == 1 {
            self.modify = !self.modify;
            PressAction::ToggleModify
        } else {
            self.paused = !self.paused;
            PressAction::Pause(self.paused)
        }
    }

    /// File `file` was loaded and started at subtune `start`, unpaused.
    pub fn tune_started(&mut self, file: usize, start: u16)
        requires
            old(self).wf(),
            file < MAX_SIDS,
        ensures
            final(self).wf(),
            *final(self) == (Controls { current_file: file, subtune: start, paused: false, ..*old(self) }),
    {
        self.current_file = file;
        self.subtune = start;
        self.paused = false;
    }

    /// The header's state text.
    pub fn state_label(&self) -> (l: &'static str)
        ensures
            self.paused ==> l@ == "PAUSED"@,
            !self.paused ==> l@ == "PLAYING"@,
    {
        if self.paused {
            "PAUSED"
        } else {
            "PLAYING"
        }
    }
}

} // verus!
