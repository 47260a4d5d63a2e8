//! The patch-browser menu: an encoder-driven state machine over four cards
//! (Main, CV Mod, Edit, USB), plus the helpers that label what it shows.
use vstd::prelude::*;
use vstd::string::StringSliceAdditionalSpecFns;
use crate::mbsid::cv::{CvTarget, target_code, target_of_code, clamp_int, N_TARGETS};
use crate::mbsid::params::{lead_params, lead_table, ParamDesc, read_value, value_reads, field_value, row_ok};
use crate::outside::{utf8_str, text_as_str, text_bytes};
use crate::mbsid::frame::{Frame, TextLine, items_of, line_text, char_bytes, zero_padded, signed_zero_padded, left_aligned, char_count, fitted_text};
use crate::mbsid::cv::target_label;
use crate::mbsid::settings_store::Settings;

verus! {

pub const N_PARAMS: usize = 32;

/// The short name of an engine.
pub open spec fn engine_label(e: Engine) -> &'static str {
    match e {
        Engine::Lead => "Lead",
        Engine::Bassline => "Bass",
        Engine::Drum => "Drum",
        Engine::Multi => "Multi",
    }
}

/// How an engine maps MIDI channels.
pub open spec fn engine_ch_map(e: Engine) -> &'static str {
    match e {
        Engine::Lead => "Ch 1",
        Engine::Bassline => "Ch 1/<60  2/>=60",
        Engine::Drum => "Ch 1",
        Engine::Multi => "Ch 1-3:L  4-6:R",
    }
}

/// The name of a voice mode.
pub open spec fn voice_label(m: VoiceMode) -> &'static str {
    match m {
        VoiceMode::Mono => "Mono",
        VoiceMode::Poly => "Poly",
        VoiceMode::Legato => "Legato",
    }
}

/// The name of a card.
pub open spec fn card_label(c: Card) -> &'static str {
    match c {
        Card::Main => "Main",
        Card::CvMod => "CV Mod",
        Card::PatchEdit => "Edit",
        Card::Usb => "USB",
    }
}

/// The name of a MIDI source.
pub open spec fn source_label(m: MidiSource) -> &'static str {
    match m {
        MidiSource::Trs => "TRS",
        MidiSource::Usb => "USB",
    }
}

/// The synth engine a patch uses.
#[derive(Clone, Copy, PartialEq, Eq, Debug, Structural)]
pub enum Engine {
    Lead,
    Bassline,
    Drum,
    Multi,
}

impl Engine {
    /// The engine named by a patch's engine byte; unknown values are Lead.
    pub fn from_byte(b: u8) -> (e: Self)
        ensures
            e == (if b == 1 {
                Engine::Bassline
            } else if b == 2 {
                Engine::Drum
            } else if b == 3 {
                Engine::Multi
            } else {
                Engine::Lead
            }),
    {
        match b {
            1 => Engine::Bassline,
            2 => Engine::Drum,
            3 => Engine::Multi,
            _ => Engine::Lead,
        }
    }

    /// The short engine name.
    pub fn label(self) -> (l: &'static str)
        ensures
            l == engine_label(self),
    {
        match self {
            Engine::Lead => "Lead",
            Engine::Bassline => "Bass",
            Engine::Drum => "Drum",
            Engine::Multi => "Multi",
        }
    }

    /// How the engine maps MIDI channels.
    pub fn ch_map(self) -> (l: &'static str)
        ensures
            l == engine_ch_map(self),
    {
        match self {
            Engine::Lead => "Ch 1",
            Engine::Bassline => "Ch 1/<60  2/>=60",
            Engine::Drum => "Ch 1",
            Engine::Multi => "Ch 1-3:L  4-6:R",
        }
    }
}

/// The voice allocation of a Lead patch.
#[derive(Clone, Copy, PartialEq, Eq, Debug, Structural)]
pub enum VoiceMode {
    Mono,
    Poly,
    Legato,
}

impl VoiceMode {
    /// The mode a voice-flags byte selects: bit 3 is Poly (it wins), bit 0 Legato.
    pub fn from_vflags(b: u8) -> (m: Self)
        ensures
            m == (if b & 0x08 != 0 {
                VoiceMode::Poly
            } else if b & 0x01 != 0 {
                VoiceMode::Legato
            } else {
                VoiceMode::Mono
            }),
    {
        if b & 0x08 != 0 {
            VoiceMode::Poly
        } else if b & 0x01 != 0 {
            VoiceMode::Legato
        } else {
            VoiceMode::Mono
        }
    }

    /// The mode's name.
    pub fn label(self) -> (l: &'static str)
        ensures
            l == voice_label(self),
    {
        match self {
            VoiceMode::Mono => "Mono",
            VoiceMode::Poly => "Poly",
            VoiceMode::Legato => "Legato",
        }
    }
}

/// The menu cards, in selector order.
#[derive(Clone, Copy, PartialEq, Eq, Debug, Structural)]
pub enum Card {
    Main,
    CvMod,
    PatchEdit,
    Usb,
}

/// A card's position in the selector.
pub open spec fn card_index(c: Card) -> int {
    match c {
        Card::Main => 0,
        Card::CvMod => 1,
        Card::PatchEdit => 2,
        Card::Usb => 3,
    }
}

/// The card at a selector position (positions past the end are Usb).
pub open spec fn card_at(ix: int) -> Card {
    if ix == 0 {
        Card::Main
    } else if ix == 1 {
        Card::CvMod
    } else if ix == 2 {
        Card::PatchEdit
    } else {
        Card::Usb
    }
}

/// The card `delta` positions away, clamped to the first card and to the
/// last reachable one (Usb only when USB storage is enabled).
pub open spec fn card_step(c: Card, delta: i8, usb_enabled: bool) -> Card {
    card_at(clamp_int(card_index(c) + delta, 0, if usb_enabled { 3 } else { 2 }))
}

impl Card {
    /// The card's name.
    pub fn label(self) -> (l: &'static str)
        ensures
            l == card_label(self),
    {
        match self {
            Card::Main => "Main",
            Card::CvMod => "CV Mod",
            Card::PatchEdit => "Edit",
            Card::Usb => "USB",
        }
    }

    fn step(self, delta: i8, usb_enabled: bool) -> (c: Self)
        ensures
            c == card_step(self, delta, usb_enabled),
    {
        let ix: i16 = match self {
            Card::Main => 0,
            Card::CvMod => 1,
            Card::PatchEdit => 2,
            Card::Usb => 3,
        };
        let hi: i16 = if usb_enabled {
            3
        } else {
            2
        };
        match clamp_i16(ix + delta as i16, 0, hi) {
            0 => Card::Main,
            1 => Card::CvMod,
            2 => Card::PatchEdit,
            _ => Card::Usb,
        }
    }
}

pub const ROW_CARD: u8 = 0;
pub const MAIN_ROW_BANK: u8 = 1;
pub const MAIN_ROW_PROGRAM: u8 = 2;
pub const MAIN_ROW_SAVE: u8 = 3;
pub const MAIN_ROW_MIDISRC: u8 = 4;
pub const MAIN_ROW_USBMODE: u8 = 5;
pub const USB_ROW_FILE: u8 = 1;
pub const USB_ROW_LOADSLOT: u8 = 2;
pub const USB_ROW_EXPORT: u8 = 3;
pub const USB_ROW_IMPORT: u8 = 4;

/// Visible window height, in rows, of the Edit card's parameter list.
pub const PATCH_EDIT_WINDOW: u8 = 6;

/// What an encoder turn asks of the firmware.
#[derive(Clone, Copy, PartialEq, Eq, Debug, Structural)]
pub enum TurnResult {
    /// Nothing to do.
    Idle,
    /// The selected (bank, program) must be loaded.
    Load,
    /// Edit parameter `ix` changed to `value`.
    Param { ix: u8, value: u16 },
    /// A persisted setting changed.
    SettingsChanged,
}

/// What the detail row shows for a patch with engine byte `engine` and
/// voice-flags byte `vflags`: the engine, and for a Lead patch its voice
/// mode (the other engines have no such mode).
pub fn patch_detail(engine: u8, vflags: u8) -> (d: (Engine, Option<VoiceMode>))
    ensures
        d.0 == (if engine == 1 {
            Engine::Bassline
        } else if engine == 2 {
            Engine::Drum
        } else if engine == 3 {
            Engine::Multi
        } else {
            Engine::Lead
        }),
        d.0 == Engine::Lead ==> d.1 == Some(
            if vflags & 0x08 != 0 {
                VoiceMode::Poly
            } else if vflags & 0x01 != 0 {
                VoiceMode::Legato
            } else {
                VoiceMode::Mono
            },
        ),
        d.0 != Engine::Lead ==> d.1 is None,
{
    let e = Engine::from_byte(engine);
    match e {
        Engine::Lead => (e, Some(VoiceMode::from_vflags(vflags))),
        _ => (e, None),
    }
}

/// Which physical input feeds MIDI to the engine.
#[derive(Clone, Copy, PartialEq, Eq, Debug, Structural)]
pub enum MidiSource {
    Trs,
    Usb,
}

impl MidiSource {
    /// The source's name.
    pub fn label(self) -> (l: &'static str)
        ensures
            l == source_label(self),
    {
        match self {
            MidiSource::Trs => "TRS",
            MidiSource::Usb => "USB",
        }
    }
}

/// Whether the encoder moves the cursor or edits the focused row.
#[derive(Clone, Copy, PartialEq, Eq, Debug, Structural)]
pub enum Mode {
    Nav,
    Edit,
}

/// Source patch for a USB export: the live edit buffer or a user-bank slot.
#[derive(Clone, Copy, PartialEq, Eq, Debug, Structural)]
pub enum ExportSource {
    Edit,
    Slot(u8),
}

/// What a button press asks of the firmware.
#[derive(Clone, Copy, PartialEq, Eq, Debug, Structural)]
pub enum PressResult {
    Toggled,
    Commit(u8),
    Cancel,
    UsbLoad(u8),
    UsbLoadToSlot { file: u8, slot: u8 },
    UsbExport { source: ExportSource },
    UsbImportBank,
}

/// The menu state.
pub struct MenuState {
    pub card: Card,
    pub focus: u8,
    pub mode: Mode,
    pub bank: u8,
    pub program: u8,
    pub save_cursor: i16,
    pub midi_src: MidiSource,
    pub cv_targets: [CvTarget; 4],
    pub edit_values: [u16; 32],
    pub edit_scroll: u8,
    pub edited: bool,
    /// Whether the loaded patch is a Lead patch; gates the Edit card's
    /// parameter rows.
    pub lead_loaded: bool,
    /// USB Mode toggle; gates whether the USB card is reachable.
    pub usb_storage: bool,
    /// Selected file on the USB card's File row; -1 = none.
    pub usb_file: i16,
    /// Number of files on the USB drive, set by the firmware.
    pub usb_file_count: u8,
    /// Load>Slot destination; -1 = Cancel.
    pub usb_slot: i16,
    /// Export source: -1 = Cancel, 0 = edit buffer, n = slot n-1.
    pub usb_export: i16,
    /// Import confirmation: -1 = Cancel, 0 = replace the bank.
    pub usb_import: i16,
    bank_count: u8,
}

/// The menu state as plain values.
pub struct MenuView {
    pub card: Card,
    pub focus: u8,
    pub mode: Mode,
    pub bank: u8,
    pub program: u8,
    pub save_cursor: i16,
    pub midi_src: MidiSource,
    pub cv_targets: Seq<CvTarget>,
    pub edit_values: Seq<u16>,
    pub edit_scroll: u8,
    pub edited: bool,
    pub lead_loaded: bool,
    pub usb_storage: bool,
    pub usb_file: i16,
    pub usb_file_count: u8,
    pub usb_slot: i16,
    pub usb_export: i16,
    pub usb_import: i16,
    pub bank_count: u8,
}

impl View for MenuState {
    type V = MenuView;

    closed spec fn view(&self) -> MenuView {
        MenuView {
            card: self.card,
            focus: self.focus,
            mode: self.mode,
            bank: self.bank,
            program: self.program,
            save_cursor: self.save_cursor,
            midi_src: self.midi_src,
            cv_targets: self.cv_targets@,
            edit_values: self.edit_values@,
            edit_scroll: self.edit_scroll,
            edited: self.edited,
            lead_loaded: self.lead_loaded,
            usb_storage: self.usb_storage,
            usb_file: self.usb_file,
            usb_file_count: self.usb_file_count,
            usb_slot: self.usb_slot,
            usb_export: self.usb_export,
            usb_import: self.usb_import,
            bank_count: self.bank_count,
        }
    }
}

/// The menu state's shape: at least one bank, four CV targets and a value
/// per Lead parameter.
pub open spec fn menu_wf(v: MenuView) -> bool {
    &&& v.bank_count >= 1
    &&& v.cv_targets.len() == 4
    &&& v.edit_values.len() == N_PARAMS
}

/// `c + delta` is a 16-bit value.
pub open spec fn i16_step_ok(c: i16, delta: i8) -> bool {
    i16::MIN <= c + delta <= i16::MAX
}

/// A turn of `delta` can be taken: the cursor it moves (a Save, File,
/// Load>Slot, Export or Import cursor in Edit mode) stays a 16-bit value.
pub open spec fn turn_ok(v: MenuView, delta: i8) -> bool {
    v.mode == Mode::Edit && v.focus != ROW_CARD ==> match v.card {
        Card::Main => v.focus == MAIN_ROW_SAVE ==> i16_step_ok(v.save_cursor, delta),
        Card::CvMod => true,
        Card::PatchEdit => on_save_row(v) ==> i16_step_ok(v.save_cursor, delta),
        Card::Usb => {
            &&& (v.focus == USB_ROW_FILE ==> i16_step_ok(v.usb_file, delta))
            &&& (v.focus == USB_ROW_LOADSLOT ==> i16_step_ok(v.usb_slot, delta))
            &&& (v.focus == USB_ROW_EXPORT ==> i16_step_ok(v.usb_export, delta))
            &&& (v.focus == USB_ROW_IMPORT ==> i16_step_ok(v.usb_import, delta))
        },
    }
}

/// A press can be taken: confirming an Export cursor names the slot one
/// below it, so the cursor is above `i16::MIN`.
pub open spec fn press_ok(v: MenuView) -> bool {
    v.card == Card::Usb && v.mode == Mode::Edit && v.focus == USB_ROW_EXPORT ==> v.usb_export > i16::MIN
}

/// Number of rows on the current card.
pub open spec fn rows_of(v: MenuView) -> u8 {
    match v.card {
        Card::Main => 6,
        Card::CvMod => 5,
        Card::PatchEdit => if v.lead_loaded {
            (2 + N_PARAMS) as u8
        } else {
            2
        },
        Card::Usb => 5,
    }
}

/// Whether the focused row is a Save row.
pub open spec fn on_save_row(v: MenuView) -> bool {
    match v.card {
        Card::Main => v.focus == MAIN_ROW_SAVE,
        Card::PatchEdit => v.focus == rows_of(v) - 1,
        _ => false,
    }
}

/// The parameter-list scroll that keeps the focused row visible.
pub open spec fn follow_scroll(scroll: u8, focus: u8) -> u8 {
    if focus >= 1 {
        let ix = (focus - 1) as u8;
        let s1 = if ix < scroll { ix } else { scroll };
        if ix >= s1 + PATCH_EDIT_WINDOW {
            (ix - PATCH_EDIT_WINDOW + 1) as u8
        } else {
            s1
        }
    } else {
        scroll
    }
}

/// An encoder turn in Nav mode: move the cursor, keep it visible.
pub open spec fn nav_turn(v: MenuView, delta: i8) -> MenuView {
    let focus = clamp_int(v.focus + delta, 0, rows_of(v) - 1) as u8;
    MenuView {
        focus,
        edit_scroll: if v.card == Card::PatchEdit { follow_scroll(v.edit_scroll, focus) } else { v.edit_scroll },
        ..v
    }
}

/// Flips between the two MIDI sources.
pub open spec fn other_source(m: MidiSource) -> MidiSource {
    match m {
        MidiSource::Trs => MidiSource::Usb,
        MidiSource::Usb => MidiSource::Trs,
    }
}

/// An encoder turn in Edit mode on the Main card.
pub open spec fn main_edit_turn(v: MenuView, delta: i8) -> (MenuView, TurnResult) {
    if v.focus == MAIN_ROW_PROGRAM {
        let next = clamp_int(v.program + delta, 0, 127) as u8;
        (MenuView { program: next, ..v }, if next != v.program { TurnResult::Load } else { TurnResult::Idle })
    } else if v.focus == MAIN_ROW_BANK {
        let next = clamp_int(v.bank + delta, 0, v.bank_count - 1) as u8;
        (MenuView { bank: next, ..v }, if next != v.bank { TurnResult::Load } else { TurnResult::Idle })
    } else if v.focus == MAIN_ROW_SAVE {
        (MenuView { save_cursor: clamp_int(v.save_cursor + delta, -1, 127) as i16, ..v }, TurnResult::Idle)
    } else if v.focus == MAIN_ROW_MIDISRC {
        if delta != 0 {
            (MenuView { midi_src: other_source(v.midi_src), ..v }, TurnResult::SettingsChanged)
        } else {
            (v, TurnResult::Idle)
        }
    } else if v.focus == MAIN_ROW_USBMODE {
        if delta != 0 {
            (MenuView { usb_storage: !v.usb_storage, ..v }, TurnResult::SettingsChanged)
        } else {
            (v, TurnResult::Idle)
        }
    } else {
        (v, TurnResult::Idle)
    }
}

/// The target a CV row steps to.
pub open spec fn cv_step(t: CvTarget, delta: i8) -> CvTarget {
    target_of_code(clamp_int(target_code(t) + delta, 0, N_TARGETS - 1) as u8)
}

/// An encoder turn in Edit mode on the CV Mod card.
pub open spec fn cv_edit_turn(v: MenuView, delta: i8) -> (MenuView, TurnResult) {
    let i = v.focus - 1;
    if 0 <= i < 4 {
        let next = cv_step(v.cv_targets[i], delta);
        (
            MenuView { cv_targets: v.cv_targets.update(i, next), ..v },
            if next != v.cv_targets[i] { TurnResult::SettingsChanged } else { TurnResult::Idle },
        )
    } else {
        (v, TurnResult::Idle)
    }
}

/// A parameter value after `delta` steps, clamped to the parameter's range.
pub open spec fn stepped_value(d: ParamDesc, cur: u16, delta: i8) -> u16 {
    clamp_int(cur + delta * d.step, 0, d.max as int) as u16
}

/// An encoder turn in Edit mode on the Edit card.
pub open spec fn patch_edit_turn(v: MenuView, delta: i8) -> (MenuView, TurnResult) {
    if on_save_row(v) {
        (MenuView { save_cursor: clamp_int(v.save_cursor + delta, -1, 127) as i16, ..v }, TurnResult::Idle)
    } else {
        let ix = v.focus - 1;
        if 0 <= ix < N_PARAMS {
            let next = stepped_value(lead_table()[ix], v.edit_values[ix], delta);
            if next != v.edit_values[ix] {
                (
                    MenuView { edit_values: v.edit_values.update(ix, next), edited: true, ..v },
                    TurnResult::Param { ix: ix as u8, value: next },
                )
            } else {
                (v, TurnResult::Idle)
            }
        } else {
            (v, TurnResult::Idle)
        }
    }
}

/// An encoder turn in Edit mode on the USB card.
pub open spec fn usb_edit_turn(v: MenuView, delta: i8) -> MenuView {
    if v.focus == USB_ROW_FILE {
        let hi = if v.usb_file_count - 1 >= -1 { v.usb_file_count - 1 } else { -1 };
        MenuView { usb_file: clamp_int(v.usb_file + delta, -1, hi) as i16, ..v }
    } else if v.focus == USB_ROW_LOADSLOT {
        MenuView { usb_slot: clamp_int(v.usb_slot + delta, -1, 127) as i16, ..v }
    } else if v.focus == USB_ROW_EXPORT {
        MenuView { usb_export: clamp_int(v.usb_export + delta, -1, 128) as i16, ..v }
    } else if v.focus == USB_ROW_IMPORT {
        MenuView { usb_import: clamp_int(v.usb_import + delta, -1, 0) as i16, ..v }
    } else {
        v
    }
}

/// The state and request after an encoder turn of `delta` detents.
pub open spec fn turn_next(v: MenuView, delta: i8) -> (MenuView, TurnResult) {
    match v.mode {
        Mode::Nav => (nav_turn(v, delta), TurnResult::Idle),
        Mode::Edit => if v.focus == ROW_CARD {
            (MenuView { card: card_step(v.card, delta, v.usb_storage), focus: ROW_CARD, ..v }, TurnResult::Idle)
        } else {
            match v.card {
                Card::Main => main_edit_turn(v, delta),
                Card::CvMod => cv_edit_turn(v, delta),
                Card::PatchEdit => patch_edit_turn(v, delta),
                Card::Usb => (usb_edit_turn(v, delta), TurnResult::Idle),
            }
        },
    }
}

/// The request a button press makes, decided before the mode toggles.
pub open spec fn press_result(v: MenuView) -> PressResult {
    if v.card == Card::Usb && v.mode == Mode::Edit {
        if v.focus == USB_ROW_FILE {
            if v.usb_file >= 0 { PressResult::UsbLoad(v.usb_file as u8) } else { PressResult::Cancel }
        } else if v.focus == USB_ROW_LOADSLOT {
            if v.usb_file >= 0 && v.usb_slot >= 0 {
                PressResult::UsbLoadToSlot { file: v.usb_file as u8, slot: v.usb_slot as u8 }
            } else {
                PressResult::Cancel
            }
        } else if v.focus == USB_ROW_EXPORT {
            if v.usb_export == -1 {
                PressResult::Cancel
            } else if v.usb_export == 0 {
                PressResult::UsbExport { source: ExportSource::Edit }
            } else {
                PressResult::UsbExport { source: ExportSource::Slot((v.usb_export - 1) as u8) }
            }
        } else if v.focus == USB_ROW_IMPORT {
            if v.usb_import == 0 { PressResult::UsbImportBank } else { PressResult::Cancel }
        } else {
            PressResult::Toggled
        }
    } else if on_save_row(v) && v.mode == Mode::Edit {
        if v.save_cursor < 0 { PressResult::Cancel } else { PressResult::Commit(v.save_cursor as u8) }
    } else {
        PressResult::Toggled
    }
}

/// The state after a button press: Nav enters Edit (a Save, Load>Slot,
/// Export or Import row starts at Cancel), Edit returns to Nav.
pub open spec fn press_next(v: MenuView) -> MenuView {
    match v.mode {
        Mode::Nav => {
            let usb_row = |r: u8| v.card == Card::Usb && v.focus == r;
            MenuView {
                mode: Mode::Edit,
                save_cursor: if on_save_row(v) { -1i16 } else { v.save_cursor },
                usb_slot: if usb_row(USB_ROW_LOADSLOT) { -1i16 } else { v.usb_slot },
                usb_export: if usb_row(USB_ROW_EXPORT) { -1i16 } else { v.usb_export },
                usb_import: if usb_row(USB_ROW_IMPORT) { -1i16 } else { v.usb_import },
                ..v
            }
        },
        Mode::Edit => MenuView { mode: Mode::Nav, ..v },
    }
}

/// The menu right after power-up.
pub open spec fn initial_menu(bank_count: u8, bank: u8, program: u8) -> MenuView {
    let bc = if bank_count >= 1 { bank_count } else { 1 };
    MenuView {
        card: Card::Main,
        focus: ROW_CARD,
        mode: Mode::Nav,
        bank: if bank <= bc - 1 { bank } else { (bc - 1) as u8 },
        program: if program <= 127 { program } else { 127 },
        save_cursor: -1i16,
        midi_src: MidiSource::Trs,
        cv_targets: seq![CvTarget::Off, CvTarget::Off, CvTarget::Off, CvTarget::Off],
        edit_values: Seq::new(32, |i: int| 0u16),
        edit_scroll: 0,
        edited: false,
        lead_loaded: true,
        usb_storage: false,
        usb_file: -1i16,
        usb_file_count: 0,
        usb_slot: -1i16,
        usb_export: -1i16,
        usb_import: -1i16,
        bank_count: bc,
    }
}

fn step_fits(c: i16, delta: i8) -> (b: bool)
    ensures
        b == i16_step_ok(c, delta),
{
    let n = c as i32 + delta as i32;
    -32768 <= n && n <= 32767
}

fn clamp_i16(v: i16, lo: i16, hi: i16) -> (r: i16)
    ensures
        r == (if v < lo {
            lo
        } else if v > hi {
            hi
        } else {
            v
        }),
{
    if v < lo {
        lo
    } else if v > hi {
        hi
    } else {
        v
    }
}

impl MenuState {
    /// The number of banks; the last one is the user bank.
    pub closed spec fn bank_count(&self) -> u8 {
        self.bank_count
    }

    /// The menu at power-up: Main card, Nav mode, `bank` and `program`
    /// clamped to what exists (at least one bank).
    pub fn new(bank_count: u8, bank: u8, program: u8) -> (s: Self)
        ensures
            s@ == initial_menu(bank_count, bank, program),
            menu_wf(s@),
    {
        let bank_count = if bank_count >= 1 {
            bank_count
        } else {
            1
        };
        let s = MenuState {
            card: Card::Main,
            focus: ROW_CARD,
            mode: Mode::Nav,
            bank: if bank <= bank_count - 1 {
                bank
            } else {
                bank_count - 1
            },
            program: if program <= 127 {
                program
            } else {
                127
            },
            save_cursor: -1,
            midi_src: MidiSource::Trs,
            cv_targets: [CvTarget::Off, CvTarget::Off, CvTarget::Off, CvTarget::Off],
            edit_values: [0u16; 32],
            edit_scroll: 0,
            edited: false,
            lead_loaded: true,
            usb_storage: false,
            usb_file: -1,
            usb_file_count: 0,
            usb_slot: -1,
            usb_export: -1,
            usb_import: -1,
            bank_count,
        };
        proof {
            assert(s@.cv_targets =~= initial_menu(bank_count, bank, program).cv_targets);
            assert(s@.edit_values =~= initial_menu(bank_count, bank, program).edit_values);
        }
        s
    }

    /// Number of rows on the current card.
    pub fn row_count(&self) -> (n: u8)
        ensures
            n == rows_of(self@),
    {
        match self.card {
            Card::Main => 6,
            Card::CvMod => 5,
            Card::PatchEdit => {
                if self.lead_loaded {
                    2 + N_PARAMS as u8
                } else {
                    2
                }
            },
            Card::Usb => 5,
        }
    }

    /// Whether the focused row is a Save row.
    pub fn is_save_row(&self) -> (b: bool)
        ensures
            b == on_save_row(self@),
    {
        match self.card {
            Card::Main => self.focus == MAIN_ROW_SAVE,
            Card::PatchEdit => self.focus == self.row_count() - 1,
            Card::CvMod => false,
            Card::Usb => false,
        }
    }

    /// Whether the selected bank is the user bank (the last one).
    /// Whether the USB port runs as MIDI host: USB is the MIDI source and
    /// the port is not serving mass storage.
    pub fn usb_midi_host(&self) -> (b: bool)
        ensures
            b == (self@.midi_src == MidiSource::Usb && !self@.usb_storage),
    {
        self.midi_src == MidiSource::Usb && !self.usb_storage
    }

    pub fn is_user_bank(&self) -> (b: bool)
        requires
            self@.bank_count >= 1,
        ensures
            b == (self@.bank == self@.bank_count - 1),
    {
        self.bank == self.bank_count - 1
    }

    fn edit_turn_main(&mut self, delta: i8) -> (r: TurnResult)
        requires
            menu_wf(old(self)@),
            turn_ok(old(self)@, delta),
            old(self)@.mode == Mode::Edit,
            old(self)@.card == Card::Main,
        ensures
            (final(self)@, r) == main_edit_turn(old(self)@, delta),
    {
        match self.focus {
            MAIN_ROW_PROGRAM => {
                let next = clamp_i16(self.program as i16 + delta as i16, 0, 127) as u8;
                let changed = next != self.program;
                self.program = next;
                if changed {
                    TurnResult::Load
                } else {
                    TurnResult::Idle
                }
            },
            MAIN_ROW_BANK => {
                let hi = (self.bank_count - 1) as i16;
                let next = clamp_i16(self.bank as i16 + delta as i16, 0, hi) as u8;
                let changed = next != self.bank;
                self.bank = next;
                if changed {
                    TurnResult::Load
                } else {
                    TurnResult::Idle
                }
            },
            MAIN_ROW_SAVE => {
                self.save_cursor = clamp_i16(self.save_cursor + delta as i16, -1, 127);
                TurnResult::Idle
            },
            MAIN_ROW_MIDISRC => {
                if delta != 0 {
                    self.midi_src = match self.midi_src {
                        MidiSource::Trs => MidiSource::Usb,
                        MidiSource::Usb => MidiSource::Trs,
                    };
                    TurnResult::SettingsChanged
                } else {
                    TurnResult::Idle
                }
            },
            MAIN_ROW_USBMODE => {
                if delta != 0 {
                    self.usb_storage = !self.usb_storage;
                    TurnResult::SettingsChanged
                } else {
                    TurnResult::Idle
                }
            },
            _ => TurnResult::Idle,
        }
    }

    fn edit_turn_cv(&mut self, delta: i8) -> (r: TurnResult)
        requires
            menu_wf(old(self)@),
            old(self)@.mode == Mode::Edit,
            old(self)@.card == Card::CvMod,
            old(self)@.focus != ROW_CARD,
        ensures
            (final(self)@, r) == cv_edit_turn(old(self)@, delta),
    {
        let i = (self.focus - 1) as usize;
        if i < 4 {
            let next = self.cv_targets[i].step(delta);
            let changed = next != self.cv_targets[i];
            self.cv_targets[i] = next;
            proof {
                assert(self@.cv_targets =~= old(self)@.cv_targets.update(i as int, next));
            }
            if changed {
                TurnResult::SettingsChanged
            } else {
                TurnResult::Idle
            }
        } else {
            TurnResult::Idle
        }
    }

    fn edit_turn_patch(&mut self, delta: i8) -> (r: TurnResult)
        requires
            menu_wf(old(self)@),
            turn_ok(old(self)@, delta),
            old(self)@.mode == Mode::Edit,
            old(self)@.card == Card::PatchEdit,
            old(self)@.focus != ROW_CARD,
        ensures
            (final(self)@, r) == patch_edit_turn(old(self)@, delta),
    {
        if self.is_save_row() {
            self.save_cursor = clamp_i16(self.save_cursor + delta as i16, -1, 127);
            TurnResult::Idle
        } else {
            let ix = (self.focus - 1) as usize;
            if ix < N_PARAMS {
                let table = lead_params();
                let d = &table[ix];
                let cur = self.edit_values[ix] as i32;
                let step = d.step as i32;
                assert(-128 * 65535 <= delta * step <= 127 * 65535) by (nonlinear_arith)
                    requires
                        -128 <= delta <= 127,
                        0 <= step <= 65535,
                ;
                let raw = cur + delta as i32 * step;
                let next = if raw < 0 {
                    0
                } else if raw > d.max as i32 {
                    d.max
                } else {
                    raw as u16
                };
                let changed = next != self.edit_values[ix];
                if changed {
                    self.edit_values[ix] = next;
                    self.edited = true;
                    proof {
                        assert(self@.edit_values =~= old(self)@.edit_values.update(ix as int, next));
                    }
                    TurnResult::Param { ix: ix as u8, value: next }
                } else {
                    TurnResult::Idle
                }
            } else {
                TurnResult::Idle
            }
        }
    }

    fn edit_turn_usb(&mut self, delta: i8)
        requires
            menu_wf(old(self)@),
            turn_ok(old(self)@, delta),
            old(self)@.mode == Mode::Edit,
            old(self)@.card == Card::Usb,
        ensures
            final(self)@ == usb_edit_turn(old(self)@, delta),
    {
        match self.focus {
            USB_ROW_FILE => {
                let hi = self.usb_file_count as i16 - 1;
                let hi = if hi >= -1 {
                    hi
                } else {
                    -1
                };
                self.usb_file = clamp_i16(self.usb_file + delta as i16, -1, hi);
            },
            USB_ROW_LOADSLOT => {
                self.usb_slot = clamp_i16(self.usb_slot + delta as i16, -1, 127);
            },
            USB_ROW_EXPORT => {
                self.usb_export = clamp_i16(self.usb_export + delta as i16, -1, 128);
            },
            USB_ROW_IMPORT => {
                self.usb_import = clamp_i16(self.usb_import + delta as i16, -1, 0);
            },
            _ => {},
        }
    }

    /// Whether a turn of `delta` keeps the cursor it moves a 16-bit value.
    pub fn turn_fits(&self, delta: i8) -> (b: bool)
        ensures
            b == turn_ok(self@, delta),
    {
        if self.mode != Mode::Edit || self.focus == ROW_CARD {
            return true;
        }
        match self.card {
            Card::Main => self.focus != MAIN_ROW_SAVE || step_fits(self.save_cursor, delta),
            Card::CvMod => true,
            Card::PatchEdit => !self.is_save_row() || step_fits(self.save_cursor, delta),
            Card::Usb => {
                (self.focus != USB_ROW_FILE || step_fits(self.usb_file, delta))
                    && (self.focus != USB_ROW_LOADSLOT || step_fits(self.usb_slot, delta))
                    && (self.focus != USB_ROW_EXPORT || step_fits(self.usb_export, delta))
                    && (self.focus != USB_ROW_IMPORT || step_fits(self.usb_import, delta))
            },
        }
    }

    /// Whether a press can name its Export slot.
    pub fn press_fits(&self) -> (b: bool)
        ensures
            b == press_ok(self@),
    {
        !(self.card == Card::Usb && self.mode == Mode::Edit && self.focus == USB_ROW_EXPORT) || self.usb_export
            > i16::MIN
    }

    /// Handles an encoder rotation of `delta` detents.
    pub fn on_turn(&mut self, delta: i8) -> (r: TurnResult)
        requires
            menu_wf(old(self)@),
            turn_ok(old(self)@, delta),
        ensures
            (final(self)@, r) == turn_next(old(self)@, delta),
            menu_wf(final(self)@),
    {
        proof {
            lemma_turn_keeps_wf(self@, delta);
        }
        match self.mode {
            Mode::Nav => {
                let hi = (self.row_count() - 1) as i16;
                self.focus = clamp_i16(self.focus as i16 + delta as i16, 0, hi) as u8;
                if self.card == Card::PatchEdit && self.focus >= 1 {
                    let ix = self.focus - 1;
                    if ix < self.edit_scroll {
                        self.edit_scroll = ix;
                    }
                    if ix >= self.edit_scroll + PATCH_EDIT_WINDOW {
                        self.edit_scroll = ix - PATCH_EDIT_WINDOW + 1;
                    }
                }
                TurnResult::Idle
            },
            Mode::Edit => {
                if self.focus == ROW_CARD {
                    self.card = self.card.step(delta, self.usb_storage);
                    self.focus = ROW_CARD;
                    return TurnResult::Idle;
                }
                match self.card {
                    Card::Main => self.edit_turn_main(delta),
                    Card::CvMod => self.edit_turn_cv(delta),
                    Card::PatchEdit => self.edit_turn_patch(delta),
                    Card::Usb => {
                        self.edit_turn_usb(delta);
                        TurnResult::Idle
                    },
                }
            },
        }
    }

    /// Handles a button press. The request is decided before the mode
    /// toggles, so a save can only be committed by the Edit-to-Nav press on a
    /// Save row.
    pub fn on_press(&mut self) -> (r: PressResult)
        requires
            menu_wf(old(self)@),
            press_ok(old(self)@),
        ensures
            r == press_result(old(self)@),
            final(self)@ == press_next(old(self)@),
            menu_wf(final(self)@),
    {
        let result = if self.card == Card::Usb && self.mode == Mode::Edit {
            match self.focus {
                USB_ROW_FILE => {
                    if self.usb_file >= 0 {
                        PressResult::UsbLoad(self.usb_file as u8)
                    } else {
                        PressResult::Cancel
                    }
                },
                USB_ROW_LOADSLOT => {
                    if self.usb_file >= 0 && self.usb_slot >= 0 {
                        PressResult::UsbLoadToSlot { file: self.usb_file as u8, slot: self.usb_slot as u8 }
                    } else {
                        PressResult::Cancel
                    }
                },
                USB_ROW_EXPORT => {
                    if self.usb_export == -1 {
                        PressResult::Cancel
                    } else if self.usb_export == 0 {
                        PressResult::UsbExport { source: ExportSource::Edit }
                    } else {
                        PressResult::UsbExport { source: ExportSource::Slot((self.usb_export - 1) as u8) }
                    }
                },
                USB_ROW_IMPORT => {
                    if self.usb_import == 0 {
                        PressResult::UsbImportBank
                    } else {
                        PressResult::Cancel
                    }
                },
                _ => PressResult::Toggled,
            }
        } else if self.is_save_row() && self.mode == Mode::Edit {
            if self.save_cursor < 0 {
                PressResult::Cancel
            } else {
                PressResult::Commit(self.save_cursor as u8)
            }
        } else {
            PressResult::Toggled
        };
        self.mode = match self.mode {
            Mode::Nav => {
                if self.is_save_row() {
                    self.save_cursor = -1;
                }
                if self.card == Card::Usb && self.focus == USB_ROW_LOADSLOT {
                    self.usb_slot = -1;
                }
                if self.card == Card::Usb && self.focus == USB_ROW_EXPORT {
                    self.usb_export = -1;
                }
                if self.card == Card::Usb && self.focus == USB_ROW_IMPORT {
                    self.usb_import = -1;
                }
                Mode::Edit
            },
            Mode::Edit => Mode::Nav,
        };
        result
    }
}

/// Every turn keeps the menu well-formed.
pub proof fn lemma_turn_keeps_wf(v: MenuView, delta: i8)
    requires
        menu_wf(v),
    ensures
        menu_wf(turn_next(v, delta).0),
{
}

/// A save is committed only by the press that leaves Edit mode on a Save
/// row, and it commits to the slot the cursor shows.
pub proof fn lemma_commit_only_on_save_confirm(v: MenuView)
    ensures
        press_result(v) matches PressResult::Commit(n) ==> v.mode == Mode::Edit && on_save_row(v) && v.card != Card::Usb
            && 0 <= v.save_cursor && n == v.save_cursor as u8,
{
}

/// Entering Edit mode on a Save row always starts at Cancel: pressing again
/// without turning cancels instead of committing.
pub proof fn lemma_save_row_enters_at_cancel(v: MenuView)
    requires
        v.mode == Mode::Nav,
        on_save_row(v),
    ensures
        press_next(v).save_cursor == -1,
        press_result(press_next(v)) == PressResult::Cancel,
{
}

/// The focused row always exists on the current card.
pub proof fn lemma_focus_stays_on_card(v: MenuView, delta: i8)
    requires
        menu_wf(v),
        v.focus < rows_of(v),
    ensures
        turn_next(v, delta).0.focus < rows_of(turn_next(v, delta).0),
        press_next(v).focus < rows_of(press_next(v)),
{
}

/// The USB card cannot be reached from another card unless USB storage is on.
pub proof fn lemma_usb_card_needs_storage(v: MenuView, delta: i8)
    requires
        v.card != Card::Usb,
        !v.usb_storage,
    ensures
        turn_next(v, delta).0.card != Card::Usb,
{
}

/// When the loaded patch is not a Lead patch, the Edit card never asks for a
/// parameter write: its only rows are the card selector and Save.
pub proof fn lemma_no_param_writes_without_lead(v: MenuView, delta: i8)
    requires
        v.card == Card::PatchEdit,
        !v.lead_loaded,
        v.focus < rows_of(v),
    ensures
        !(turn_next(v, delta).1 is Param),
{
}

/// The length of a NUL-terminated name: the index of its first NUL, or 16.
pub open spec fn cstr_len(buf: Seq<u8>) -> int {
    if exists|i: int| 0 <= i < 17 && buf[i] == 0 {
        let i = choose|i: int| 0 <= i < 17 && buf[i] == 0 && forall|j: int| 0 <= j < i ==> buf[j] != 0;
        if i < 16 { i } else { 16 }
    } else {
        16
    }
}

/// The patch name the menu shows: the name read into `buf` when the read
/// succeeded (`ok`), else `Empty`.
pub fn shown_name(ok: bool, buf: &[u8; 17]) -> (s: &str)
    ensures
        !ok ==> s@ == "Empty"@,
        ok && vstd::utf8::valid_utf8(buf@.take(cstr_len(buf@))) ==> s.spec_bytes() == buf@.take(cstr_len(buf@)),
        ok && !vstd::utf8::valid_utf8(buf@.take(cstr_len(buf@))) ==> s@ == "?"@,
{
    if ok {
        name_from_cstr(buf)
    } else {
        "Empty"
    }
}

/// A 17-byte NUL-terminated engine name buffer as text: the bytes before the
/// first NUL (at most 16), or `?` when they are not valid UTF-8.
pub fn name_from_cstr(buf: &[u8; 17]) -> (s: &str)
    ensures
        vstd::utf8::valid_utf8(buf@.take(cstr_len(buf@))) ==> s.spec_bytes() == buf@.take(cstr_len(buf@)),
        !vstd::utf8::valid_utf8(buf@.take(cstr_len(buf@))) ==> s@ == "?"@,
{
    let mut end: usize = 0;
    while end < 17 && buf[end] != 0
        invariant
            end <= 17,
            buf@.len() == 17,
            forall|j: int| 0 <= j < end ==> buf@[j] != 0,
        decreases 17 - end,
    {
        end = end + 1;
    }
    proof {
        if end < 17 {
            assert(0 <= end < 17 && buf@[end as int] == 0);
            let i = choose|i: int| 0 <= i < 17 && buf@[i] == 0 && forall|j: int| 0 <= j < i ==> buf@[j] != 0;
            assert(i == end) by {
                if i < end {
                    assert(buf@[i] != 0);
                } else if i > end {
                    assert(buf@[end as int] != 0);
                }
            }
        }
    }
    let end = if end < 16 {
        end
    } else {
        16
    };
    let bytes: &[u8] = buf.as_slice();
    let head = slice_head(bytes, end);
    match utf8_str(head) {
        Some(s) => s,
        None => "?",
    }
}

fn slice_head(b: &[u8], n: usize) -> (h: &[u8])
    requires
        n <= b@.len(),
    ensures
        h@ == b@.take(n as int),
{
    let h = &b[0..n];
    assert(h@ =~= b@.take(n as int));
    h
}

impl MenuState {
    /// Reads every Lead parameter from a patch body given as a byte lookup.
    pub fn refresh_params<F: Fn(u16) -> u8>(&mut self, body: &F)
        requires
            forall|a: u16| call_requires(*body, (a,)),
        ensures
            forall|i: int| 0 <= i < N_PARAMS ==> #[trigger] read_from(body, lead_table()[i], final(self)@.edit_values[i]),
            final(self)@ == (MenuView { edit_values: final(self)@.edit_values, ..old(self)@ }),
            final(self)@.edit_values.len() == N_PARAMS,
    {
        let table = lead_params();
        let mut i: usize = 0;
        while i < N_PARAMS
            invariant
                i <= N_PARAMS,
                table@ == lead_table(),
                table.len() == N_PARAMS,
                forall|k: int| 0 <= k < table.len() ==> #[trigger] row_ok(table@[k]),
                forall|a: u16| call_requires(*body, (a,)),
                self@ == (MenuView { edit_values: self@.edit_values, ..old(self)@ }),
                self@.edit_values.len() == N_PARAMS,
                forall|k: int| 0 <= k < i ==> #[trigger] read_from(body, lead_table()[k], self@.edit_values[k]),
            decreases N_PARAMS - i,
        {
            assert(row_ok(table@[i as int]));
            let ghost before = self@.edit_values;
            let v = read_value(&table[i], body);
            self.edit_values[i] = v;
            proof {
                assert(read_from(body, lead_table()[i as int], self@.edit_values[i as int]));
                assert forall|k: int| 0 <= k < i + 1 implies #[trigger] read_from(body, lead_table()[k], self@.edit_values[k]) by {
                    if k < i {
                        assert(self@.edit_values[k] == before[k]);
                    }
                }
            }
            i = i + 1;
        }
    }
}

/// `v` is what parameter `d` reads as from the bytes `body` gives.
pub open spec fn read_from<F: Fn(u16) -> u8>(body: F, d: ParamDesc, v: u16) -> bool {
    exists|lo: u8, hi: u8| value_reads(d.enc, body, d.addr, lo, hi) && v == field_value(d.enc, lo, hi)
}

/// Row spacing in pixels.
pub const ROW_DY: i32 = 24;

/// USB drive status shown on the USB card.
#[derive(Clone, Copy, PartialEq, Eq, Debug, Structural)]
pub enum DriveState {
    NoDrive,
    Ready,
    Busy,
}

/// What the USB card shows beyond the menu state, supplied by the firmware.
pub struct UsbInfo<'a> {
    pub drive: DriveState,
    pub file_name: Option<&'a str>,
    pub file_count: u8,
    pub slot_name: Option<&'a str>,
}

/// A frame item: position, style and text bytes.
pub type ItemV = (i32, i32, bool, Seq<u8>);

/// The row marker: blank, `>` for the navigation cursor, `#` while editing.
pub open spec fn marker(v: MenuView, row: u8) -> char {
    if v.focus != row {
        ' '
    } else if v.mode == Mode::Edit {
        '#'
    } else {
        '>'
    }
}

/// The text of `o`, or `d` when there is none.
pub open spec fn or_str(o: Option<&str>, d: &'static str) -> Seq<u8> {
    match o {
        Some(t) => t.spec_bytes(),
        None => d.spec_bytes(),
    }
}

/// The pieces of the detail line: engine, voice mode when known, channel map;
/// `---` when the patch information is unavailable.
pub open spec fn detail_pieces(detail: Option<(Engine, Option<VoiceMode>)>) -> Seq<Seq<u8>> {
    match detail {
        Some((e, Some(vm))) => seq![
            "  ".spec_bytes(), engine_label(e).spec_bytes(), " ".spec_bytes(), voice_label(vm).spec_bytes(),
            "  ".spec_bytes(), engine_ch_map(e).spec_bytes(),
        ],
        Some((e, None)) => seq![
            "  ".spec_bytes(), engine_label(e).spec_bytes(), "  ".spec_bytes(), engine_ch_map(e).spec_bytes(),
        ],
        None => seq!["  ---".spec_bytes()],
    }
}

/// The pieces of a Save row.
pub open spec fn save_pieces(v: MenuView, row: u8, save_name: Option<&str>) -> Seq<Seq<u8>> {
    if v.save_cursor < 0 {
        seq![char_bytes(marker(v, row)), " Save     Cancel".spec_bytes()]
    } else {
        seq![char_bytes(marker(v, row)), " Save     U".spec_bytes()] + zero_padded(v.save_cursor as nat, 3) + seq![
            "  ".spec_bytes(),
            or_str(save_name, "Empty"),
        ]
    }
}

/// The title pieces that its 32-byte line takes: `MBSID  ` (7 bytes), the
/// name, then ` *` (2 bytes) when the patch was edited. Pieces are taken in
/// order while they fit in 32 bytes; the first that does not fit ends the
/// title.
pub open spec fn title_pieces(v: MenuView, name: &str) -> Seq<Seq<u8>> {
    let n = name.spec_bytes();
    if 7 + n.len() > 32 {
        seq!["MBSID  ".spec_bytes()]
    } else if v.edited && 9 + n.len() <= 32 {
        seq!["MBSID  ".spec_bytes(), n, " *".spec_bytes()]
    } else {
        seq!["MBSID  ".spec_bytes(), n]
    }
}

/// The pieces of the card selector row.
pub open spec fn card_pieces(v: MenuView) -> Seq<Seq<u8>> {
    seq![char_bytes(marker(v, ROW_CARD)), " Menu     ".spec_bytes(), card_label(v.card).spec_bytes()]
}

/// The bank letter: `U` for the user bank, else `A`, `B`, ...
pub open spec fn bank_char(v: MenuView) -> char {
    if v.bank == v.bank_count - 1 {
        'U'
    } else {
        ((0x41 + v.bank) as u8) as char
    }
}

/// The pieces of the Bank row.
pub open spec fn bank_pieces(v: MenuView) -> Seq<Seq<u8>> {
    seq![char_bytes(marker(v, MAIN_ROW_BANK)), " Bank     ".spec_bytes(), char_bytes(bank_char(v))]
}

/// The pieces of the Program row.
pub open spec fn program_pieces(v: MenuView, name: &str) -> Seq<Seq<u8>> {
    seq![char_bytes(marker(v, MAIN_ROW_PROGRAM)), " Program  ".spec_bytes()] + zero_padded(v.program as nat, 3) + seq![
        "  ".spec_bytes(),
        name.spec_bytes(),
    ]
}

/// The pieces of the MIDI source row.
pub open spec fn midi_pieces(v: MenuView) -> Seq<Seq<u8>> {
    seq![char_bytes(marker(v, MAIN_ROW_MIDISRC)), " MIDI Src ".spec_bytes(), source_label(v.midi_src).spec_bytes()]
}

/// The pieces of the USB mode row.
pub open spec fn usb_mode_pieces(v: MenuView) -> Seq<Seq<u8>> {
    seq![
        char_bytes(marker(v, MAIN_ROW_USBMODE)),
        " USB Mode ".spec_bytes(),
        (if v.usb_storage { "Storage" } else { "MIDI" }).spec_bytes(),
    ]
}

/// An item made of pieces.
pub open spec fn line_item(x: i32, y: int, bright: bool, pieces: Seq<Seq<u8>>) -> ItemV {
    (x, y as i32, bright, line_text(pieces))
}

/// An optional status line.
pub open spec fn status_items(status: Option<&str>, x: i32, y: int) -> Seq<ItemV> {
    match status {
        Some(t) => seq![(x, y as i32, true, fitted_text(t.spec_bytes()))],
        None => Seq::empty(),
    }
}

/// The rows of the Main card.
pub open spec fn main_items(
    v: MenuView,
    name: &str,
    detail: Option<(Engine, Option<VoiceMode>)>,
    save_name: Option<&str>,
    status: Option<&str>,
    x: i32,
    y: i32,
) -> Seq<ItemV> {
    seq![
        line_item(x, y + 2 * ROW_DY, v.focus == MAIN_ROW_BANK, bank_pieces(v)),
        line_item(x, y + 3 * ROW_DY, v.focus == MAIN_ROW_PROGRAM, program_pieces(v, name)),
        line_item(x, y + 4 * ROW_DY, v.focus == MAIN_ROW_SAVE, save_pieces(v, MAIN_ROW_SAVE, save_name)),
        line_item(x, y + 5 * ROW_DY, v.focus == MAIN_ROW_MIDISRC, midi_pieces(v)),
        line_item(x, y + 6 * ROW_DY, v.focus == MAIN_ROW_USBMODE, usb_mode_pieces(v)),
        line_item(x, y + 7 * ROW_DY, false, detail_pieces(detail)),
    ] + status_items(status, x, y + 8 * ROW_DY)
}

/// The pieces of CV row `i` (0-based).
pub open spec fn cv_row_pieces(v: MenuView, i: int) -> Seq<Seq<u8>> {
    seq![char_bytes(marker(v, (i + 1) as u8)), " CV".spec_bytes()] + zero_padded((i + 1) as nat, 0) + seq![
        "      ".spec_bytes(),
        target_label(v.cv_targets[i]).spec_bytes(),
    ]
}

/// The CV rows `0..n`.
pub open spec fn cv_rows(v: MenuView, x: i32, y: i32, n: int) -> Seq<ItemV> {
    Seq::new(n as nat, |i: int| line_item(x, y + (2 + i) * ROW_DY, v.focus == i + 1, cv_row_pieces(v, i)))
}

/// The rows of the CV Mod card.
pub open spec fn cv_items(v: MenuView, status: Option<&str>, x: i32, y: i32) -> Seq<ItemV> {
    cv_rows(v, x, y, 4) + seq![(x, (y + 6 * ROW_DY) as i32, false, fitted_text("mods engine knobs/params".spec_bytes()))]
        + status_items(status, x, y + 7 * ROW_DY)
}

/// The pieces of the row for parameter `ix`.
pub open spec fn param_row_pieces(v: MenuView, ix: int) -> Seq<Seq<u8>> {
    let label = lead_table()[ix].label.spec_bytes();
    seq![char_bytes(marker(v, (ix + 1) as u8)), " ".spec_bytes()] + left_aligned(
        label,
        char_count(label, label.len() as int),
        8,
    ) + seq![" ".spec_bytes()] + zero_padded(v.edit_values[ix] as nat, 0)
}

/// The end of the visible parameter window.
pub open spec fn window_end(v: MenuView) -> int {
    if v.edit_scroll + PATCH_EDIT_WINDOW <= N_PARAMS {
        v.edit_scroll + PATCH_EDIT_WINDOW
    } else {
        N_PARAMS as int
    }
}

/// The first `n` visible parameter rows.
pub open spec fn param_rows(v: MenuView, x: i32, y: i32, n: int) -> Seq<ItemV> {
    Seq::new(
        n as nat,
        |slot: int|
            line_item(
                x,
                y + (2 + slot) * ROW_DY,
                v.focus == v.edit_scroll + slot + 1,
                param_row_pieces(v, v.edit_scroll + slot),
            ),
    )
}

/// The scroll indicators of the parameter window.
pub open spec fn scroll_marks(v: MenuView, x: i32, y: i32) -> Seq<ItemV> {
    let visible = window_end(v) - v.edit_scroll;
    (if v.edit_scroll > 0 {
        seq![((x - 10) as i32, (y + 2 * ROW_DY) as i32, false, fitted_text("^".spec_bytes()))]
    } else {
        Seq::empty()
    }) + (if window_end(v) < N_PARAMS {
        let last = (if visible >= 1 { visible } else { 1 }) - 1;
        seq![((x - 10) as i32, (y + (2 + last) * ROW_DY) as i32, false, fitted_text("v".spec_bytes()))]
    } else {
        Seq::empty()
    })
}

/// The rows of the Edit card.
pub open spec fn patch_items(v: MenuView, save_name: Option<&str>, lead_loaded: bool, x: i32, y: i32) -> Seq<ItemV> {
    let save_row = (rows_of(v) - 1) as u8;
    if !lead_loaded {
        seq![
            (x, (y + 2 * ROW_DY) as i32, false, fitted_text("Lead patches only".spec_bytes())),
            line_item(x, y + 3 * ROW_DY, v.focus == save_row, save_pieces(v, save_row, save_name)),
        ]
    } else {
        let visible = window_end(v) - v.edit_scroll;
        param_rows(v, x, y, visible) + scroll_marks(v, x, y) + seq![
            line_item(x, y + (2 + visible) * ROW_DY, v.focus == save_row, save_pieces(v, save_row, save_name)),
        ]
    }
}

/// The pieces of the drive row.
pub open spec fn drive_pieces(drive: DriveState, count: u8) -> Seq<Seq<u8>> {
    match drive {
        DriveState::NoDrive => seq!["  Drive    No drive".spec_bytes()],
        DriveState::Busy => seq!["  Drive    BUSY".spec_bytes()],
        DriveState::Ready => seq!["  Drive    Ready (".spec_bytes()] + zero_padded(count as nat, 0) + seq![
            " files)".spec_bytes(),
        ],
    }
}

/// The pieces of the File row.
pub open spec fn file_pieces(v: MenuView, fname: Option<&str>) -> Seq<Seq<u8>> {
    if v.usb_file < 0 {
        seq![char_bytes(marker(v, USB_ROW_FILE)), " File     -".spec_bytes()]
    } else {
        seq![char_bytes(marker(v, USB_ROW_FILE)), " File     ".spec_bytes()] + zero_padded(v.usb_file as nat, 3) + seq![
            "  ".spec_bytes(),
            or_str(fname, "?"),
        ]
    }
}

/// The pieces of the Load>Slot row.
pub open spec fn load_slot_pieces(v: MenuView, sname: Option<&str>) -> Seq<Seq<u8>> {
    if v.usb_slot < 0 {
        seq![char_bytes(marker(v, USB_ROW_LOADSLOT)), " Load>Slot Cancel".spec_bytes()]
    } else {
        seq![char_bytes(marker(v, USB_ROW_LOADSLOT)), " Load>Slot U".spec_bytes()] + zero_padded(v.usb_slot as nat, 3)
            + seq!["  ".spec_bytes(), or_str(sname, "Empty")]
    }
}

/// The pieces of the Export row.
pub open spec fn export_pieces(v: MenuView) -> Seq<Seq<u8>> {
    if v.usb_export == -1 {
        seq![char_bytes(marker(v, USB_ROW_EXPORT)), " Export   Cancel".spec_bytes()]
    } else if v.usb_export == 0 {
        seq![char_bytes(marker(v, USB_ROW_EXPORT)), " Export   EDIT -> USB".spec_bytes()]
    } else {
        seq![char_bytes(marker(v, USB_ROW_EXPORT)), " Export   U".spec_bytes()] + signed_zero_padded(v.usb_export - 1, 3)
            + seq![" -> USB".spec_bytes()]
    }
}

/// The pieces of the Import row.
pub open spec fn import_pieces(v: MenuView) -> Seq<Seq<u8>> {
    if v.usb_import == -1 {
        seq![char_bytes(marker(v, USB_ROW_IMPORT)), " Import   Cancel".spec_bytes()]
    } else {
        seq![char_bytes(marker(v, USB_ROW_IMPORT)), " Import   REPLACE bank!".spec_bytes()]
    }
}

/// The rows of the USB card.
pub open spec fn usb_items(
    v: MenuView,
    drive: DriveState,
    fname: Option<&str>,
    count: u8,
    sname: Option<&str>,
    status: Option<&str>,
    x: i32,
    y: i32,
) -> Seq<ItemV> {
    seq![
        line_item(x, y + 2 * ROW_DY, false, drive_pieces(drive, count)),
        line_item(x, y + 3 * ROW_DY, v.focus == USB_ROW_FILE, file_pieces(v, fname)),
        line_item(x, y + 4 * ROW_DY, v.focus == USB_ROW_LOADSLOT, load_slot_pieces(v, sname)),
        line_item(x, y + 5 * ROW_DY, v.focus == USB_ROW_EXPORT, export_pieces(v)),
        line_item(x, y + 6 * ROW_DY, v.focus == USB_ROW_IMPORT, import_pieces(v)),
    ] + status_items(status, x, y + 7 * ROW_DY)
}

/// Every item of the menu frame, in paint order.
pub open spec fn frame_spec(
    v: MenuView,
    name: &str,
    detail: Option<(Engine, Option<VoiceMode>)>,
    save_name: Option<&str>,
    status: Option<&str>,
    lead_loaded: bool,
    usb: Option<(DriveState, Option<&str>, u8, Option<&str>)>,
    x: i32,
    y: i32,
) -> Seq<ItemV> {
    seq![line_item(x, y as int, true, title_pieces(v, name)), line_item(x, y + ROW_DY, v.focus == ROW_CARD, card_pieces(v))]
        + match v.card {
        Card::Main => main_items(v, name, detail, save_name, status, x, y),
        Card::CvMod => cv_items(v, status, x, y),
        Card::PatchEdit => patch_items(v, save_name, lead_loaded, x, y),
        Card::Usb => match usb {
            Some((d, f, c, sn)) => usb_items(v, d, f, c, sn, status, x, y),
            None => usb_items(v, DriveState::NoDrive, None, 0, None, status, x, y),
        },
    }
}

/// How many rows below `y` the lowest item of the current card stands,
/// given whether a status line is shown.
pub open spec fn rows_below(v: MenuView, lead_loaded: bool, has_status: bool) -> int {
    match v.card {
        Card::Main => if has_status { 8 } else { 7 },
        Card::CvMod => if has_status { 7 } else { 6 },
        Card::PatchEdit => if lead_loaded { 2 + window_end(v) - v.edit_scroll } else { 3 },
        Card::Usb => if has_status { 7 } else { 6 },
    }
}

/// Whether the Edit card paints a scroll mark, 10 pixels left of `x`.
pub open spec fn has_scroll_marks(v: MenuView, lead_loaded: bool) -> bool {
    &&& v.card == Card::PatchEdit
    &&& lead_loaded
    &&& (v.edit_scroll > 0 || window_end(v) < N_PARAMS)
}

/// What `build_frame` needs of the menu state and the screen position: a
/// bank letter that exists, an edit window that starts inside the
/// parameter list, an export slot number one below the cursor, and item
/// positions that fit in an `i32`.
pub open spec fn frame_inputs_ok(v: MenuView, lead_loaded: bool, has_status: bool, x: i32, y: i32) -> bool {
    &&& v.bank_count >= 1
    &&& v.cv_targets.len() == 4
    &&& v.edit_values.len() == N_PARAMS
    &&& (v.card == Card::Main && v.bank != v.bank_count - 1 ==> v.bank <= 190)
    &&& (v.card == Card::PatchEdit && lead_loaded ==> v.edit_scroll <= N_PARAMS)
    &&& (v.card == Card::Usb ==> v.usb_export > i16::MIN)
    &&& (has_scroll_marks(v, lead_loaded) ==> i32::MIN + 10 <= x)
    &&& y + rows_below(v, lead_loaded, has_status) * ROW_DY <= i32::MAX
}

fn row_marker(st: &MenuState, row: u8) -> (c: char)
    ensures
        c == marker(st@, row),
{
    if st.focus != row {
        ' '
    } else if st.mode == Mode::Edit {
        '#'
    } else {
        '>'
    }
}

/// The detail-row text: engine, voice mode when known, channel map; `---`
/// when the patch information is unavailable.
pub fn detail_line(detail: Option<(Engine, Option<VoiceMode>)>) -> (l: heapless::String<48>)
    ensures
        text_bytes(l) == line_text(detail_pieces(detail)),
{
    detail_text(detail).into_line()
}

fn detail_text(detail: Option<(Engine, Option<VoiceMode>)>) -> (l: TextLine)
    ensures
        l.wf(),
        l.pieces() == detail_pieces(detail),
{
    let mut line = TextLine::new();
    match detail {
        Some((engine, Some(vm))) => {
            line.add_str("  ");
            line.add_str(engine.label());
            line.add_str(" ");
            line.add_str(vm.label());
            line.add_str("  ");
            line.add_str(engine.ch_map());
        },
        Some((engine, None)) => {
            line.add_str("  ");
            line.add_str(engine.label());
            line.add_str("  ");
            line.add_str(engine.ch_map());
        },
        None => {
            line.add_str("  ---");
        },
    }
    proof {
        assert(line.pieces() =~= detail_pieces(detail));
    }
    line
}

fn save_line(st: &MenuState, row: u8, save_name: Option<&str>) -> (l: TextLine)
    ensures
        l.wf(),
        l.pieces() == save_pieces(st@, row, save_name),
{
    let mut line = TextLine::new();
    line.add_char(row_marker(st, row));
    if st.save_cursor < 0 {
        line.add_str(" Save     Cancel");
    } else {
        line.add_str(" Save     U");
        line.add_dec(st.save_cursor as u32, 3);
        line.add_str("  ");
        line.add_str(
            match save_name {
                Some(n) => n,
                None => "Empty",
            },
        );
    }
    proof {
        assert(line.pieces() =~= save_pieces(st@, row, save_name));
    }
    line
}

fn title_line(st: &MenuState, name: &str) -> (l: TextLine)
    ensures
        l.wf(),
        l.pieces() == title_pieces(st@, name),
{
    let mut line = TextLine::new();
    line.add_str("MBSID  ");
    let name_len = name.as_bytes().len();
    if name_len <= 25 {
        line.add_str(name);
        if st.edited && name_len <= 23 {
            line.add_str(" *");
        }
    }
    proof {
        assert(line.pieces() =~= title_pieces(st@, name));
    }
    line
}

fn card_line(st: &MenuState) -> (l: TextLine)
    ensures
        l.wf(),
        l.pieces() == card_pieces(st@),
{
    let mut line = TextLine::new();
    line.add_char(row_marker(st, ROW_CARD));
    line.add_str(" Menu     ");
    line.add_str(st.card.label());
    proof {
        assert(line.pieces() =~= card_pieces(st@));
    }
    line
}

fn bank_line(st: &MenuState) -> (l: TextLine)
    requires
        st@.bank_count >= 1,
        st@.bank != st@.bank_count - 1 ==> st@.bank <= 190,
    ensures
        l.wf(),
        l.pieces() == bank_pieces(st@),
{
    let mut line = TextLine::new();
    line.add_char(row_marker(st, MAIN_ROW_BANK));
    line.add_str(" Bank     ");
    let c = if st.is_user_bank() {
        'U'
    } else {
        (0x41u8 + st.bank) as char
    };
    line.add_char(c);
    proof {
        assert(line.pieces() =~= bank_pieces(st@));
    }
    line
}

fn program_line(st: &MenuState, name: &str) -> (l: TextLine)
    ensures
        l.wf(),
        l.pieces() == program_pieces(st@, name),
{
    let mut line = TextLine::new();
    line.add_char(row_marker(st, MAIN_ROW_PROGRAM));
    line.add_str(" Program  ");
    line.add_dec(st.program as u32, 3);
    line.add_str("  ");
    line.add_str(name);
    proof {
        assert(line.pieces() =~= program_pieces(st@, name));
    }
    line
}

fn midi_line(st: &MenuState) -> (l: TextLine)
    ensures
        l.wf(),
        l.pieces() == midi_pieces(st@),
{
    let mut line = TextLine::new();
    line.add_char(row_marker(st, MAIN_ROW_MIDISRC));
    line.add_str(" MIDI Src ");
    line.add_str(st.midi_src.label());
    proof {
        assert(line.pieces() =~= midi_pieces(st@));
    }
    line
}

fn usb_mode_line(st: &MenuState) -> (l: TextLine)
    ensures
        l.wf(),
        l.pieces() == usb_mode_pieces(st@),
{
    let mut line = TextLine::new();
    line.add_char(row_marker(st, MAIN_ROW_USBMODE));
    line.add_str(" USB Mode ");
    line.add_str(
        if st.usb_storage {
            "Storage"
        } else {
            "MIDI"
        },
    );
    proof {
        assert(line.pieces() =~= usb_mode_pieces(st@));
    }
    line
}

fn push_line(f: &mut Frame, x: i32, y: i32, bright: bool, line: &TextLine)
    requires
        line.wf(),
        items_of(*old(f)).len() < 12,
    ensures
        items_of(*final(f)) == items_of(*old(f)).push(line_item(x, y as int, bright, line.pieces())),
{
    f.push(x, y, bright, line.line());
}

fn push_status(f: &mut Frame, status: Option<&str>, x: i32, y: i32, rows: i32)
    requires
        items_of(*old(f)).len() < 12,
        0 <= rows <= 8,
        status is Some ==> y + rows * ROW_DY <= i32::MAX,
    ensures
        items_of(*final(f)) == items_of(*old(f)) + status_items(status, x, y + rows * ROW_DY),
{
    if let Some(s) = status {
        f.push(x, y + rows * ROW_DY, true, s);
    }
    proof {
        assert(items_of(*final(f)) =~= items_of(*old(f)) + status_items(status, x, y + rows * ROW_DY));
    }
}

/// Builds the menu frame at `(pos_x, pos_y)`: the title, the card selector
/// row, then the current card's rows.
pub fn build_frame(
    st: &MenuState,
    name: &str,
    detail: Option<(Engine, Option<VoiceMode>)>,
    save_name: Option<&str>,
    status: Option<&str>,
    lead_loaded: bool,
    usb: Option<&UsbInfo>,
    pos_x: i32,
    pos_y: i32,
) -> (f: Frame)
    requires
        frame_inputs_ok(st@, lead_loaded, status is Some, pos_x, pos_y),
    ensures
        items_of(f) == frame_spec(
            st@,
            name,
            detail,
            save_name,
            status,
            lead_loaded,
            match usb {
                Some(u) => Some((u.drive, u.file_name, u.file_count, u.slot_name)),
                None => None,
            },
            pos_x,
            pos_y,
        ),
{
    let ghost v = st@;
    let mut f = Frame::default();
    let title = title_line(st, name);
    push_line(&mut f, pos_x, pos_y, true, &title);
    let line = card_line(st);
    push_line(&mut f, pos_x, pos_y + ROW_DY, st.focus == ROW_CARD, &line);
    let ghost head = items_of(f);
    proof {
        assert(head =~= seq![
            line_item(pos_x, pos_y as int, true, title_pieces(v, name)),
            line_item(pos_x, pos_y + ROW_DY, v.focus == ROW_CARD, card_pieces(v)),
        ]);
    }
    match st.card {
        Card::Main => {
            build_main(st, &mut f, name, detail, save_name, status, pos_x, pos_y);
        },
        Card::CvMod => {
            build_cv(st, &mut f, status, pos_x, pos_y);
        },
        Card::PatchEdit => {
            build_patch(st, &mut f, save_name, lead_loaded, pos_x, pos_y);
        },
        Card::Usb => {
            let (drive, fname, count, sname) = match usb {
                Some(u) => (u.drive, u.file_name, u.file_count, u.slot_name),
                None => (DriveState::NoDrive, None, 0, None),
            };
            build_usb(st, &mut f, drive, fname, count, sname, status, pos_x, pos_y);
        },
    }
    f
}

fn build_main(
    st: &MenuState,
    f: &mut Frame,
    name: &str,
    detail: Option<(Engine, Option<VoiceMode>)>,
    save_name: Option<&str>,
    status: Option<&str>,
    pos_x: i32,
    pos_y: i32,
)
    requires
        frame_inputs_ok(st@, true, status is Some, pos_x, pos_y),
        st@.card == Card::Main,
        items_of(*old(f)).len() == 2,
    ensures
        items_of(*final(f)) == items_of(*old(f)) + main_items(st@, name, detail, save_name, status, pos_x, pos_y),
{
    let ghost v = st@;
    let ghost f0 = items_of(*f);
    let l1 = bank_line(st);
    push_line(f, pos_x, pos_y + 2 * ROW_DY, st.focus == MAIN_ROW_BANK, &l1);
    let l2 = program_line(st, name);
    push_line(f, pos_x, pos_y + 3 * ROW_DY, st.focus == MAIN_ROW_PROGRAM, &l2);
    let l3 = save_line(st, MAIN_ROW_SAVE, save_name);
    push_line(f, pos_x, pos_y + 4 * ROW_DY, st.focus == MAIN_ROW_SAVE, &l3);
    let l4 = midi_line(st);
    push_line(f, pos_x, pos_y + 5 * ROW_DY, st.focus == MAIN_ROW_MIDISRC, &l4);
    let l5 = usb_mode_line(st);
    push_line(f, pos_x, pos_y + 6 * ROW_DY, st.focus == MAIN_ROW_USBMODE, &l5);
    let l6 = detail_text(detail);
    push_line(f, pos_x, pos_y + 7 * ROW_DY, false, &l6);
    let ghost rows = items_of(*f);
    proof {
        assert(rows =~= f0 + seq![
            line_item(pos_x, pos_y + 2 * ROW_DY, v.focus == MAIN_ROW_BANK, bank_pieces(v)),
            line_item(pos_x, pos_y + 3 * ROW_DY, v.focus == MAIN_ROW_PROGRAM, program_pieces(v, name)),
            line_item(pos_x, pos_y + 4 * ROW_DY, v.focus == MAIN_ROW_SAVE, save_pieces(v, MAIN_ROW_SAVE, save_name)),
            line_item(pos_x, pos_y + 5 * ROW_DY, v.focus == MAIN_ROW_MIDISRC, midi_pieces(v)),
            line_item(pos_x, pos_y + 6 * ROW_DY, v.focus == MAIN_ROW_USBMODE, usb_mode_pieces(v)),
            line_item(pos_x, pos_y + 7 * ROW_DY, false, detail_pieces(detail)),
        ]);
    }
    push_status(f, status, pos_x, pos_y, 8);
    proof {
        assert(items_of(*f) =~= f0 + main_items(v, name, detail, save_name, status, pos_x, pos_y));
    }
}

fn cv_line(st: &MenuState, i: u8) -> (l: TextLine)
    requires
        i < 4,
        st@.cv_targets.len() == 4,
    ensures
        l.wf(),
        l.pieces() == cv_row_pieces(st@, i as int),
{
    let mut line = TextLine::new();
    line.add_char(row_marker(st, i + 1));
    line.add_str(" CV");
    line.add_dec((i + 1) as u32, 0);
    line.add_str("      ");
    line.add_str(st.cv_targets[i as usize].label());
    proof {
        assert(line.pieces() =~= cv_row_pieces(st@, i as int));
    }
    line
}

fn build_cv(st: &MenuState, f: &mut Frame, status: Option<&str>, pos_x: i32, pos_y: i32)
    requires
        frame_inputs_ok(st@, true, status is Some, pos_x, pos_y),
        st@.card == Card::CvMod,
        items_of(*old(f)).len() == 2,
    ensures
        items_of(*final(f)) == items_of(*old(f)) + cv_items(st@, status, pos_x, pos_y),
{
    let ghost v = st@;
    let ghost f0 = items_of(*f);
    let mut i: u8 = 0;
    while i < 4
        invariant
            i <= 4,
            v == st@,
            frame_inputs_ok(v, true, status is Some, pos_x, pos_y),
            v.card == Card::CvMod,
            items_of(*f) == f0 + cv_rows(v, pos_x, pos_y, i as int),
            f0.len() == 2,
        decreases 4 - i,
    {
        let line = cv_line(st, i);
        push_line(f, pos_x, pos_y + (2 + i as i32) * ROW_DY, st.focus == i + 1, &line);
        proof {
            assert(cv_rows(v, pos_x, pos_y, i as int + 1) =~= cv_rows(v, pos_x, pos_y, i as int).push(
                line_item(pos_x, pos_y + (2 + i) * ROW_DY, v.focus == i + 1, cv_row_pieces(v, i as int)),
            ));
            assert(items_of(*f) =~= f0 + cv_rows(v, pos_x, pos_y, i as int + 1));
        }
        i = i + 1;
    }
    f.push(pos_x, pos_y + 6 * ROW_DY, false, "mods engine knobs/params");
    let ghost mid = items_of(*f);
    push_status(f, status, pos_x, pos_y, 7);
    proof {
        assert(items_of(*f) =~= f0 + cv_items(v, status, pos_x, pos_y));
    }
}

fn param_line(st: &MenuState, table: &Vec<ParamDesc>, ix: usize) -> (l: TextLine)
    requires
        table@ == lead_table(),
        ix < N_PARAMS,
        st@.edit_values.len() == N_PARAMS,
    ensures
        l.wf(),
        l.pieces() == param_row_pieces(st@, ix as int),
{
    let mut line = TextLine::new();
    line.add_char(row_marker(st, (ix + 1) as u8));
    line.add_str(" ");
    line.add_left(table[ix].label, 8);
    line.add_str(" ");
    line.add_dec(st.edit_values[ix] as u32, 0);
    proof {
        assert(line.pieces() =~= param_row_pieces(st@, ix as int));
    }
    line
}

fn build_patch(st: &MenuState, f: &mut Frame, save_name: Option<&str>, lead_loaded: bool, pos_x: i32, pos_y: i32)
    requires
        frame_inputs_ok(st@, lead_loaded, false, pos_x, pos_y),
        st@.card == Card::PatchEdit,
        items_of(*old(f)).len() == 2,
    ensures
        items_of(*final(f)) == items_of(*old(f)) + patch_items(st@, save_name, lead_loaded, pos_x, pos_y),
{
    let ghost v = st@;
    let ghost f0 = items_of(*f);
    let save_row = st.row_count() - 1;
    if !lead_loaded {
        f.push(pos_x, pos_y + 2 * ROW_DY, false, "Lead patches only");
        let line = save_line(st, save_row, save_name);
        push_line(f, pos_x, pos_y + 3 * ROW_DY, st.focus == save_row, &line);
        proof {
            assert(items_of(*f) =~= f0 + patch_items(v, save_name, lead_loaded, pos_x, pos_y));
        }
    } else {
        let table = lead_params();
        let scroll = st.edit_scroll as usize;
        let end = if scroll + (PATCH_EDIT_WINDOW as usize) <= N_PARAMS {
            scroll + PATCH_EDIT_WINDOW as usize
        } else {
            N_PARAMS
        };
        let mut ix: usize = scroll;
        while ix < end
            invariant
                scroll <= ix <= end,
                end == window_end(v),
                scroll == v.edit_scroll,
                end - scroll <= 6,
                v == st@,
                table@ == lead_table(),
                frame_inputs_ok(v, lead_loaded, false, pos_x, pos_y),
                v.card == Card::PatchEdit,
                lead_loaded,
                items_of(*f) == f0 + param_rows(v, pos_x, pos_y, ix - scroll),
                f0.len() == 2,
            decreases end - ix,
        {
            let slot = ix - scroll;
            let line = param_line(st, &table, ix);
            push_line(f, pos_x, pos_y + (2 + slot as i32) * ROW_DY, st.focus == (ix + 1) as u8, &line);
            proof {
                assert(param_rows(v, pos_x, pos_y, ix + 1 - scroll) =~= param_rows(v, pos_x, pos_y, ix - scroll).push(
                    line_item(
                        pos_x,
                        pos_y + (2 + slot) * ROW_DY,
                        v.focus == v.edit_scroll + slot + 1,
                        param_row_pieces(v, v.edit_scroll + slot),
                    ),
                ));
                assert(items_of(*f) =~= f0 + param_rows(v, pos_x, pos_y, ix + 1 - scroll));
            }
            ix = ix + 1;
        }
        let ghost rows = items_of(*f);
        if scroll > 0 {
            f.push(pos_x - 10, pos_y + 2 * ROW_DY, false, "^");
        }
        if end < N_PARAMS {
            let visible = end - scroll;
            let last_slot = (if visible >= 1 {
                visible
            } else {
                1
            }) as i32 - 1;
            f.push(pos_x - 10, pos_y + (2 + last_slot) * ROW_DY, false, "v");
        }
        proof {
            assert(items_of(*f) =~= rows + scroll_marks(v, pos_x, pos_y));
        }
        let line = save_line(st, save_row, save_name);
        let visible_rows = (end - scroll) as i32;
        push_line(f, pos_x, pos_y + (2 + visible_rows) * ROW_DY, st.focus == save_row, &line);
        proof {
            assert(items_of(*f) =~= f0 + patch_items(v, save_name, lead_loaded, pos_x, pos_y));
        }
    }
}

fn drive_line(drive: DriveState, count: u8) -> (l: TextLine)
    ensures
        l.wf(),
        l.pieces() == drive_pieces(drive, count),
{
    let mut line = TextLine::new();
    match drive {
        DriveState::NoDrive => {
            line.add_str("  Drive    No drive");
        },
        DriveState::Busy => {
            line.add_str("  Drive    BUSY");
        },
        DriveState::Ready => {
            line.add_str("  Drive    Ready (");
            line.add_dec(count as u32, 0);
            line.add_str(" files)");
        },
    }
    proof {
        assert(line.pieces() =~= drive_pieces(drive, count));
    }
    line
}

fn file_line(st: &MenuState, fname: Option<&str>) -> (l: TextLine)
    ensures
        l.wf(),
        l.pieces() == file_pieces(st@, fname),
{
    let mut line = TextLine::new();
    line.add_char(row_marker(st, USB_ROW_FILE));
    if st.usb_file < 0 {
        line.add_str(" File     -");
    } else {
        line.add_str(" File     ");
        line.add_dec(st.usb_file as u32, 3);
        line.add_str("  ");
        line.add_str(
            match fname {
                Some(n) => n,
                None => "?",
            },
        );
    }
    proof {
        assert(line.pieces() =~= file_pieces(st@, fname));
    }
    line
}

fn load_slot_line(st: &MenuState, sname: Option<&str>) -> (l: TextLine)
    ensures
        l.wf(),
        l.pieces() == load_slot_pieces(st@, sname),
{
    let mut line = TextLine::new();
    line.add_char(row_marker(st, USB_ROW_LOADSLOT));
    if st.usb_slot < 0 {
        line.add_str(" Load>Slot Cancel");
    } else {
        line.add_str(" Load>Slot U");
        line.add_dec(st.usb_slot as u32, 3);
        line.add_str("  ");
        line.add_str(
            match sname {
                Some(n) => n,
                None => "Empty",
            },
        );
    }
    proof {
        assert(line.pieces() =~= load_slot_pieces(st@, sname));
    }
    line
}

fn export_line(st: &MenuState) -> (l: TextLine)
    requires
        st@.usb_export > i16::MIN,
    ensures
        l.wf(),
        l.pieces() == export_pieces(st@),
{
    let mut line = TextLine::new();
    line.add_char(row_marker(st, USB_ROW_EXPORT));
    if st.usb_export == -1 {
        line.add_str(" Export   Cancel");
    } else if st.usb_export == 0 {
        line.add_str(" Export   EDIT -> USB");
    } else {
        line.add_str(" Export   U");
        line.add_signed_dec((st.usb_export - 1) as i32, 3);
        line.add_str(" -> USB");
    }
    proof {
        assert(line.pieces() =~= export_pieces(st@));
    }
    line
}

fn import_line(st: &MenuState) -> (l: TextLine)
    ensures
        l.wf(),
        l.pieces() == import_pieces(st@),
{
    let mut line = TextLine::new();
    line.add_char(row_marker(st, USB_ROW_IMPORT));
    if st.usb_import == -1 {
        line.add_str(" Import   Cancel");
    } else {
        line.add_str(" Import   REPLACE bank!");
    }
    proof {
        assert(line.pieces() =~= import_pieces(st@));
    }
    line
}

fn build_usb(
    st: &MenuState,
    f: &mut Frame,
    drive: DriveState,
    fname: Option<&str>,
    count: u8,
    sname: Option<&str>,
    status: Option<&str>,
    pos_x: i32,
    pos_y: i32,
)
    requires
        frame_inputs_ok(st@, true, status is Some, pos_x, pos_y),
        st@.card == Card::Usb,
        items_of(*old(f)).len() == 2,
    ensures
        items_of(*final(f)) == items_of(*old(f)) + usb_items(st@, drive, fname, count, sname, status, pos_x, pos_y),
{
    let ghost v = st@;
    let ghost f0 = items_of(*f);
    let l1 = drive_line(drive, count);
    push_line(f, pos_x, pos_y + 2 * ROW_DY, false, &l1);
    let l2 = file_line(st, fname);
    push_line(f, pos_x, pos_y + 3 * ROW_DY, st.focus == USB_ROW_FILE, &l2);
    let l3 = load_slot_line(st, sname);
    push_line(f, pos_x, pos_y + 4 * ROW_DY, st.focus == USB_ROW_LOADSLOT, &l3);
    let l4 = export_line(st);
    push_line(f, pos_x, pos_y + 5 * ROW_DY, st.focus == USB_ROW_EXPORT, &l4);
    let l5 = import_line(st);
    push_line(f, pos_x, pos_y + 6 * ROW_DY, st.focus == USB_ROW_IMPORT, &l5);
    let ghost rows = items_of(*f);
    proof {
        assert(rows =~= f0 + seq![
            line_item(pos_x, pos_y + 2 * ROW_DY, false, drive_pieces(drive, count)),
            line_item(pos_x, pos_y + 3 * ROW_DY, v.focus == USB_ROW_FILE, file_pieces(v, fname)),
            line_item(pos_x, pos_y + 4 * ROW_DY, v.focus == USB_ROW_LOADSLOT, load_slot_pieces(v, sname)),
            line_item(pos_x, pos_y + 5 * ROW_DY, v.focus == USB_ROW_EXPORT, export_pieces(v)),
            line_item(pos_x, pos_y + 6 * ROW_DY, v.focus == USB_ROW_IMPORT, import_pieces(v)),
        ]);
    }
    push_status(f, status, pos_x, pos_y, 7);
    proof {
        assert(items_of(*f) =~= f0 + usb_items(v, drive, fname, count, sname, status, pos_x, pos_y));
    }
}

/// The settings record the menu stands for.
pub open spec fn settings_of_menu(v: MenuView) -> Settings {
    Settings {
        midi_src: if v.midi_src == MidiSource::Usb { 1 } else { 0 },
        cv_targets: [
            target_code(v.cv_targets[0]),
            target_code(v.cv_targets[1]),
            target_code(v.cv_targets[2]),
            target_code(v.cv_targets[3]),
        ],
        usb_mode: if v.usb_storage { 1 } else { 0 },
    }
}

/// The settings record the menu stands for: MIDI source, CV target codes,
/// USB mode.
pub fn menu_settings(st: &MenuState) -> (s: Settings)
    requires
        menu_wf(st@),
    ensures
        s == settings_of_menu(st@),
{
    Settings {
        midi_src: if st.midi_src == MidiSource::Usb { 1 } else { 0 },
        cv_targets: [
            st.cv_targets[0].to_u8(),
            st.cv_targets[1].to_u8(),
            st.cv_targets[2].to_u8(),
            st.cv_targets[3].to_u8(),
        ],
        usb_mode: if st.usb_storage { 1 } else { 0 },
    }
}

/// Applies loaded settings to the menu: source 1 is USB, every CV code
/// decodes to its target (unknown codes to Off), mode 1 is Storage.
pub fn apply_settings(st: &mut MenuState, s: &Settings)
    requires
        menu_wf(old(st)@),
    ensures
        menu_wf(final(st)@),
        final(st)@ == (MenuView {
            midi_src: if s.midi_src == 1 { MidiSource::Usb } else { MidiSource::Trs },
            cv_targets: seq![
                target_of_code(s.cv_targets[0]),
                target_of_code(s.cv_targets[1]),
                target_of_code(s.cv_targets[2]),
                target_of_code(s.cv_targets[3]),
            ],
            usb_storage: s.usb_mode == 1,
            ..old(st)@
        }),
{
    st.midi_src = if s.midi_src == 1 {
        MidiSource::Usb
    } else {
        MidiSource::Trs
    };
    st.cv_targets = [
        CvTarget::from_u8(s.cv_targets[0]),
        CvTarget::from_u8(s.cv_targets[1]),
        CvTarget::from_u8(s.cv_targets[2]),
        CvTarget::from_u8(s.cv_targets[3]),
    ];
    st.usb_storage = s.usb_mode == 1;
    assert(st@.cv_targets =~= seq![
        target_of_code(s.cv_targets[0]),
        target_of_code(s.cv_targets[1]),
        target_of_code(s.cv_targets[2]),
        target_of_code(s.cv_targets[3]),
    ]);
}

/// Saving the menu's settings and applying them back restores the menu's
/// MIDI source, CV targets and USB mode.
pub proof fn lemma_settings_restore_menu(v: MenuView)
    requires
        menu_wf(v),
    ensures
        (if settings_of_menu(v).midi_src == 1 { MidiSource::Usb } else { MidiSource::Trs }) == v.midi_src,
        settings_of_menu(v).usb_mode == 1 <==> v.usb_storage,
        forall|i: int| 0 <= i < 4 ==> target_of_code(#[trigger] settings_of_menu(v).cv_targets[i]) == v.cv_targets[i],
{
    crate::mbsid::cv::lemma_target_code_roundtrip(v.cv_targets[0]);
    crate::mbsid::cv::lemma_target_code_roundtrip(v.cv_targets[1]);
    crate::mbsid::cv::lemma_target_code_roundtrip(v.cv_targets[2]);
    crate::mbsid::cv::lemma_target_code_roundtrip(v.cv_targets[3]);
    assert forall|i: int| 0 <= i < 4 implies target_of_code(#[trigger] settings_of_menu(v).cv_targets[i]) == v.cv_targets[i] by {
        if i == 0 {
        } else if i == 1 {
        } else if i == 2 {
        } else {
        }
    }
}

/// What the menu needs after a look at the USB drive.
#[derive(Debug, Clone, Copy, PartialEq, Eq, Structural)]
pub struct UsbSync {
    /// The menu must be repainted.
    pub dirty: bool,
    /// The cached file list is stale and must be dropped.
    pub drop_list: bool,
    /// The drive's files must be listed now.
    pub scan: bool,
}

/// Brings the menu in line with the drive: leaving Storage mode collapses
/// the USB card to the Main card's selector row; losing the drive forgets
/// the file list; a present, unlisted drive is listed when the USB card is
/// shown.
pub fn usb_sync(st: &mut MenuState, drive_present: bool, listed: bool) -> (r: UsbSync)
    requires
        menu_wf(old(st)@),
    ensures
        menu_wf(final(st)@),
        ({
            let v0 = old(st)@;
            let collapse = !v0.usb_storage && v0.card == Card::Usb;
            let v1 = if collapse { MenuView { card: Card::Main, focus: ROW_CARD, ..v0 } } else { v0 };
            let drop = !drive_present && listed;
            let v2 = if drop { MenuView { usb_file: -1i16, usb_file_count: 0u8, ..v1 } } else { v1 };
            &&& final(st)@ == v2
            &&& r.drop_list == drop
            &&& r.scan == (drive_present && !listed && v2.card == Card::Usb)
            &&& r.dirty == (collapse || (drop && v2.card == Card::Usb) || r.scan)
        }),
{
    let mut dirty = false;
    if !st.usb_storage && st.card == Card::Usb {
        st.card = Card::Main;
        st.focus = ROW_CARD;
        dirty = true;
    }
    let drop_list = !drive_present && listed;
    if drop_list {
        st.usb_file = -1;
        st.usb_file_count = 0;
        if st.card == Card::Usb {
            dirty = true;
        }
    }
    let scan = drive_present && !listed && st.card == Card::Usb;
    if scan {
        dirty = true;
    }
    UsbSync { dirty, drop_list, scan }
}

/// Records a fresh listing of `n` files: the first one is selected, or none
/// when there are none.
pub fn usb_listed(st: &mut MenuState, n: u8)
    requires
        menu_wf(old(st)@),
    ensures
        menu_wf(final(st)@),
        final(st)@ == (MenuView { usb_file_count: n, usb_file: if n > 0 { 0i16 } else { -1i16 }, ..old(st)@ }),
{
    st.usb_file_count = n;
    st.usb_file = if n > 0 {
        0
    } else {
        -1
    };
}

/// Law: the Bank row ends with the selected bank's letter, which is `U`
/// for the user bank (the last one) and `A` plus the bank number for any
/// other bank; so with several banks, bank 0 shows `A`, never `U`.
pub proof fn lemma_bank_letter(v: MenuView)
    requires
        v.bank_count >= 1,
        v.bank != v.bank_count - 1 ==> v.bank <= 190,
    ensures
        bank_pieces(v).len() == 3,
        bank_pieces(v)[2] == char_bytes(bank_char(v)),
        v.bank == v.bank_count - 1 ==> bank_char(v) == 'U',
        v.bank != v.bank_count - 1 ==> bank_char(v) as u32 == 0x41 + v.bank,
        v.bank_count >= 2 && v.bank == 0 ==> bank_char(v) == 'A',
{
}

} // verus!
