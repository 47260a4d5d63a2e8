use tiliqua_fw::mbsid::menu::patch_detail;
use tiliqua_fw::mbsid::cv::CvTarget;
use tiliqua_fw::mbsid::frame::{diff, PaintOp, MAX_OPS};
use tiliqua_fw::mbsid::menu::{
    build_frame, detail_line, name_from_cstr, Card, DriveState, Engine, ExportSource, MenuState, MidiSource, Mode,
    PressResult, TurnResult, UsbInfo, VoiceMode, MAIN_ROW_BANK, MAIN_ROW_MIDISRC, MAIN_ROW_PROGRAM, MAIN_ROW_SAVE,
    MAIN_ROW_USBMODE, N_PARAMS, ROW_CARD, USB_ROW_EXPORT, USB_ROW_FILE, USB_ROW_IMPORT, USB_ROW_LOADSLOT,
};
use tiliqua_fw::mbsid::params::lead_params;

#[test]
fn nav_turn_moves_cursor_and_clamps_no_load() {
    let mut m = MenuState::new(1, 0, 10);
    assert_eq!(m.focus, ROW_CARD);
    assert!(matches!(m.on_turn(1), TurnResult::Idle));
    assert_eq!(m.focus, MAIN_ROW_BANK);
    assert!(matches!(m.on_turn(1), TurnResult::Idle));
    assert_eq!(m.focus, MAIN_ROW_PROGRAM);
    assert!(matches!(m.on_turn(1), TurnResult::Idle));
    assert_eq!(m.focus, MAIN_ROW_SAVE);
    assert!(matches!(m.on_turn(1), TurnResult::Idle));
    assert_eq!(m.focus, MAIN_ROW_MIDISRC);
    assert!(matches!(m.on_turn(1), TurnResult::Idle));
    assert_eq!(m.focus, MAIN_ROW_USBMODE);
    assert!(matches!(m.on_turn(3), TurnResult::Idle));
    assert_eq!(m.focus, MAIN_ROW_USBMODE);
    assert!(matches!(m.on_turn(-1), TurnResult::Idle));
    assert_eq!(m.focus, MAIN_ROW_MIDISRC);
    assert!(matches!(m.on_turn(-1), TurnResult::Idle));
    assert_eq!(m.focus, MAIN_ROW_SAVE);
    assert!(matches!(m.on_turn(-1), TurnResult::Idle));
    assert_eq!(m.focus, MAIN_ROW_PROGRAM);
    assert!(matches!(m.on_turn(-1), TurnResult::Idle));
    assert_eq!(m.focus, MAIN_ROW_BANK);
    assert!(matches!(m.on_turn(-1), TurnResult::Idle));
    assert_eq!(m.focus, ROW_CARD);
    assert!(matches!(m.on_turn(-5), TurnResult::Idle));
    assert_eq!(m.focus, ROW_CARD);
}

#[test]
fn press_toggles_mode_without_loading() {
    let mut m = MenuState::new(1, 0, 10);
    assert_eq!(m.mode, Mode::Nav);
    let _ = m.on_press();
    assert_eq!(m.mode, Mode::Edit);
    let _ = m.on_press();
    assert_eq!(m.mode, Mode::Nav);
}

#[test]
fn edit_program_changes_value_clamps_and_loads_only_on_change() {
    let mut m = MenuState::new(1, 0, 0);
    m.focus = MAIN_ROW_PROGRAM;
    let _ = m.on_press();
    assert!(matches!(m.on_turn(5), TurnResult::Load));
    assert_eq!(m.program, 5);
    assert!(matches!(m.on_turn(-100), TurnResult::Load));
    assert_eq!(m.program, 0);
    assert!(!matches!(m.on_turn(-1), TurnResult::Load));
    assert_eq!(m.program, 0);
    assert!(matches!(m.on_turn(127), TurnResult::Load));
    assert_eq!(m.program, 127);
    assert!(!matches!(m.on_turn(10), TurnResult::Load));
}

#[test]
fn edit_bank_is_inert_with_one_bank_but_live_with_many() {
    let mut one = MenuState::new(1, 0, 0);
    one.focus = MAIN_ROW_BANK;
    let _ = one.on_press();
    assert!(!matches!(one.on_turn(1), TurnResult::Load));
    assert_eq!(one.bank, 0);

    let mut many = MenuState::new(3, 0, 7);
    many.focus = MAIN_ROW_BANK;
    let _ = many.on_press();
    assert!(matches!(many.on_turn(1), TurnResult::Load));
    assert_eq!(many.bank, 1);
    assert_eq!(many.program, 7);
    assert!(matches!(many.on_turn(5), TurnResult::Load));
    assert_eq!(many.bank, 2);
    assert!(!matches!(many.on_turn(1), TurnResult::Load));
}

#[test]
fn name_from_cstr_trims_at_nul() {
    let mut buf = [b' '; 17];
    buf[..4].copy_from_slice(b"Lead");
    buf[4] = 0;
    assert_eq!(name_from_cstr(&buf), "Lead");
}

#[test]
fn name_from_cstr_handles_full_16_chars() {
    let mut buf = [b'X'; 17];
    buf[16] = 0;
    assert_eq!(name_from_cstr(&buf).len(), 16);
}

#[test]
fn engine_from_byte_coverage() {
    assert_eq!(Engine::from_byte(0), Engine::Lead);
    assert_eq!(Engine::from_byte(1), Engine::Bassline);
    assert_eq!(Engine::from_byte(2), Engine::Drum);
    assert_eq!(Engine::from_byte(3), Engine::Multi);
    assert_eq!(Engine::from_byte(99), Engine::Lead);
}

#[test]
fn voice_mode_from_vflags_all_cases() {
    assert_eq!(VoiceMode::from_vflags(0x00), VoiceMode::Mono);
    assert_eq!(VoiceMode::from_vflags(0x01), VoiceMode::Legato);
    assert_eq!(VoiceMode::from_vflags(0x08), VoiceMode::Poly);
    assert_eq!(VoiceMode::from_vflags(0x09), VoiceMode::Poly);
}

#[test]
fn detail_line_none_shows_error_indicator_not_lead() {
    let l = detail_line(None);
    assert_eq!(l.as_str().trim(), "---");
    assert!(!l.contains("Lead"));
}

#[test]
fn detail_line_lead_includes_voice_mode() {
    let l = detail_line(Some((Engine::Lead, Some(VoiceMode::Poly))));
    assert!(l.contains("Lead"));
    assert!(l.contains("Poly"));
    assert!(l.contains(Engine::Lead.ch_map()));
}

#[test]
fn detail_line_non_lead_omits_voice_mode() {
    let l = detail_line(Some((Engine::Multi, None)));
    assert!(l.contains("Multi"));
    assert!(l.contains(Engine::Multi.ch_map()));
    assert!(!l.contains("Mono") && !l.contains("Poly") && !l.contains("Leg"));
}

#[test]
fn engine_ch_map_and_label_non_empty() {
    for b in [0u8, 1, 2, 3, 99] {
        let e = Engine::from_byte(b);
        assert!(!e.label().is_empty());
        assert!(!e.ch_map().is_empty());
    }
}

#[test]
fn nav_cycles_four_rows() {
    let mut m = MenuState::new(2, 0, 10);
    assert_eq!(m.focus, ROW_CARD);
    m.on_turn(1);
    assert_eq!(m.focus, MAIN_ROW_BANK);
    m.on_turn(1);
    assert_eq!(m.focus, MAIN_ROW_PROGRAM);
    m.on_turn(1);
    assert_eq!(m.focus, MAIN_ROW_SAVE);
    m.on_turn(1);
    assert_eq!(m.focus, MAIN_ROW_MIDISRC);
    m.on_turn(1);
    assert_eq!(m.focus, MAIN_ROW_USBMODE);
    m.on_turn(1);
    assert_eq!(m.focus, MAIN_ROW_USBMODE);
    m.on_turn(-1);
    assert_eq!(m.focus, MAIN_ROW_MIDISRC);
    m.on_turn(-1);
    assert_eq!(m.focus, MAIN_ROW_SAVE);
    m.on_turn(-1);
    assert_eq!(m.focus, MAIN_ROW_PROGRAM);
    m.on_turn(-1);
    assert_eq!(m.focus, MAIN_ROW_BANK);
    m.on_turn(-1);
    assert_eq!(m.focus, ROW_CARD);
    m.on_turn(-1);
    assert_eq!(m.focus, ROW_CARD);
}

#[test]
fn user_bank_is_last() {
    let mut m = MenuState::new(2, 0, 0);
    assert!(!m.is_user_bank());
    m.focus = MAIN_ROW_BANK;
    let _ = m.on_press();
    assert!(matches!(m.on_turn(1), TurnResult::Load));
    assert!(m.is_user_bank());
}

#[test]
fn save_row_edit_enters_at_cancel_and_scrolls() {
    let mut m = MenuState::new(2, 0, 0);
    m.focus = MAIN_ROW_SAVE;
    m.save_cursor = 42;
    let _ = m.on_press();
    assert_eq!(m.mode, Mode::Edit);
    assert_eq!(m.save_cursor, -1);
    assert!(!matches!(m.on_turn(1), TurnResult::Load));
    assert_eq!(m.save_cursor, 0);
    assert!(!matches!(m.on_turn(-5), TurnResult::Load));
    assert_eq!(m.save_cursor, -1);
    assert!(!matches!(m.on_turn(127), TurnResult::Load));
    assert_eq!(m.save_cursor, 126);
    assert!(!matches!(m.on_turn(127), TurnResult::Load));
    assert_eq!(m.save_cursor, 127);
}

#[test]
fn save_press_commits_at_slot_cancels_at_cancel() {
    let mut m = MenuState::new(2, 0, 0);
    m.focus = MAIN_ROW_SAVE;
    assert_eq!(m.on_press(), PressResult::Toggled);
    m.on_turn(10);
    assert_eq!(m.on_press(), PressResult::Commit(9));
    assert_eq!(m.mode, Mode::Nav);

    assert_eq!(m.on_press(), PressResult::Toggled);
    assert_eq!(m.save_cursor, -1);
    assert_eq!(m.on_press(), PressResult::Cancel);
    assert_eq!(m.mode, Mode::Nav);
}

#[test]
fn non_save_rows_never_commit() {
    let mut m = MenuState::new(2, 0, 0);
    m.focus = MAIN_ROW_PROGRAM;
    assert_eq!(m.on_press(), PressResult::Toggled);
    assert_eq!(m.on_press(), PressResult::Toggled);
}

#[test]
fn midi_src_defaults_trs_and_toggles_on_edit_turn() {
    let mut m = MenuState::new(1, 0, 0);
    assert_eq!(m.midi_src, MidiSource::Trs);
    m.focus = MAIN_ROW_MIDISRC;
    let _ = m.on_press();
    assert!(matches!(m.on_turn(1), TurnResult::SettingsChanged));
    assert_eq!(m.midi_src, MidiSource::Usb);
    assert!(matches!(m.on_turn(-1), TurnResult::SettingsChanged));
    assert_eq!(m.midi_src, MidiSource::Trs);
    assert!(matches!(m.on_turn(0), TurnResult::Idle));
    assert_eq!(m.midi_src, MidiSource::Trs);
}

#[test]
fn midi_src_press_never_commits_or_cancels() {
    let mut m = MenuState::new(1, 0, 0);
    m.focus = MAIN_ROW_MIDISRC;
    assert_eq!(m.on_press(), PressResult::Toggled);
    assert_eq!(m.on_press(), PressResult::Toggled);
}

#[test]
fn card_row_cycles_cards_without_side_effects() {
    let mut m = MenuState::new(2, 0, 0);
    assert_eq!(m.card, Card::Main);
    assert_eq!(m.focus, ROW_CARD);
    let _ = m.on_press();
    assert!(matches!(m.on_turn(1), TurnResult::Idle));
    assert_eq!(m.card, Card::CvMod);
    assert!(matches!(m.on_turn(1), TurnResult::Idle));
    assert_eq!(m.card, Card::PatchEdit);
    assert!(matches!(m.on_turn(1), TurnResult::Idle));
    assert_eq!(m.card, Card::PatchEdit);
    assert!(matches!(m.on_turn(-2), TurnResult::Idle));
    assert_eq!(m.card, Card::Main);
    let _ = m.on_press();
    assert_eq!(m.mode, Mode::Nav);
}

#[test]
fn switching_cards_keeps_per_card_focus_in_range() {
    let mut m = MenuState::new(2, 0, 0);
    m.focus = MAIN_ROW_MIDISRC;
    m.card = Card::CvMod;
    assert!(m.focus < m.row_count());
    m.focus = 0;
    m.card = Card::PatchEdit;
    assert_eq!(m.row_count() as usize, 2 + N_PARAMS);
}

#[test]
fn main_save_commit_still_works_at_new_index() {
    let mut m = MenuState::new(2, 0, 0);
    m.focus = MAIN_ROW_SAVE;
    assert_eq!(m.on_press(), PressResult::Toggled);
    m.on_turn(10);
    assert_eq!(m.on_press(), PressResult::Commit(9));
}

#[test]
fn cvmod_row_edit_steps_targets_and_reports_settings_change() {
    let mut m = MenuState::new(2, 0, 0);
    m.card = Card::CvMod;
    m.focus = 1;
    let _ = m.on_press();
    assert_eq!(m.on_turn(1), TurnResult::SettingsChanged);
    assert_eq!(m.cv_targets[0], CvTarget::Knob1);
    assert_eq!(m.on_turn(-1), TurnResult::SettingsChanged);
    assert_eq!(m.cv_targets[0], CvTarget::Off);
    assert_eq!(m.on_turn(-1), TurnResult::Idle);
}

#[test]
fn patch_edit_row_steps_value_and_emits_param() {
    let mut m = MenuState::new(2, 0, 0);
    m.card = Card::PatchEdit;
    m.edit_values[0] = 5;
    m.focus = 1;
    let _ = m.on_press();
    assert_eq!(m.on_turn(2), TurnResult::Param { ix: 0, value: 7 });
    assert_eq!(m.on_turn(100), TurnResult::Param { ix: 0, value: 15 });
    assert_eq!(m.on_turn(1), TurnResult::Idle);
}

#[test]
fn patch_edit_wide_row_uses_coarse_step() {
    let cutoff_ix = lead_params()
        .iter()
        .position(|d| d.label == "Cutoff")
        .unwrap();
    let mut m = MenuState::new(2, 0, 0);
    m.card = Card::PatchEdit;
    m.focus = cutoff_ix as u8 + 1;
    let _ = m.on_press();
    assert_eq!(
        m.on_turn(1),
        TurnResult::Param {
            ix: cutoff_ix as u8,
            value: 16
        }
    );
}

#[test]
fn patch_edit_scroll_follows_focus() {
    let mut m = MenuState::new(2, 0, 0);
    m.card = Card::PatchEdit;
    for _ in 0..(N_PARAMS + 1) {
        m.on_turn(1);
    }
    assert_eq!(m.focus, m.row_count() - 1);
    let ix = m.focus - 1;
    assert!(
        ix >= m.edit_scroll && ix < m.edit_scroll + 6,
        "focus visible"
    );
    for _ in 0..(N_PARAMS + 1) {
        m.on_turn(-1);
    }
    assert_eq!(m.edit_scroll, 0);
}

#[test]
fn patch_edit_save_row_commits_like_main() {
    let mut m = MenuState::new(2, 0, 0);
    m.card = Card::PatchEdit;
    m.focus = m.row_count() - 1;
    assert_eq!(m.on_press(), PressResult::Toggled);
    assert_eq!(m.save_cursor, -1);
    m.on_turn(5);
    assert_eq!(m.on_press(), PressResult::Commit(4));
}

#[test]
fn patch_edit_gated_off_when_not_lead_loaded() {
    let mut m = MenuState::new(2, 0, 0);
    m.card = Card::PatchEdit;
    m.lead_loaded = false;
    assert_eq!(m.row_count(), 2);

    for _ in 0..(N_PARAMS + 5) {
        m.on_turn(1);
        assert!(
            m.focus <= 1,
            "focus escaped the Card/Save bound: {}",
            m.focus
        );
    }
    assert_eq!(m.focus, m.row_count() - 1);

    let _ = m.on_press();
    for _ in 0..(N_PARAMS + 5) {
        let r = m.on_turn(1);
        assert!(
            !matches!(r, TurnResult::Param { .. }),
            "on_turn emitted Param while lead_loaded == false"
        );
    }
    assert!(m.is_save_row());
}

#[test]
fn patch_edit_param_rows_unchanged_when_lead_loaded() {
    let m = MenuState::new(2, 0, 0);
    assert!(m.lead_loaded);
    let mut m = m;
    m.card = Card::PatchEdit;
    assert_eq!(m.row_count() as usize, 2 + N_PARAMS);
}

#[test]
fn refresh_params_reads_lead_layout() {
    let mut m = MenuState::new(2, 0, 0);
    m.refresh_params(&|a: u16| match a {
        0x52 => 0x0C,
        0x62 => 0x84,
        _ => 0,
    });
    assert_eq!(m.edit_values[0], 12);
    let atk_ix = lead_params()
        .iter()
        .position(|d| d.label == "O1 Atk")
        .unwrap();
    let dec_ix = lead_params()
        .iter()
        .position(|d| d.label == "O1 Dec")
        .unwrap();
    assert_eq!(m.edit_values[atk_ix], 8);
    assert_eq!(m.edit_values[dec_ix], 4);
}


#[test]
fn build_frame_main_card_rows_and_styles() {
    let m = MenuState::new(2, 0, 5);
    let fr = build_frame(
        &m,
        "TestPatch",
        Some((Engine::Lead, Some(VoiceMode::Mono))),
        None,
        None,
        true,
        None,
        60,
        80,
    );
    assert_eq!(fr.items.len(), 8);
    assert!(fr.items[0].text.starts_with("MBSID"));
    assert!(fr.items[0].bright);
    assert!(fr.items[1].bright);
    assert!(fr.items[1].text.contains("> Menu"));
    assert!(!fr.items[2].bright);
    assert!(fr.items[3].text.contains("Program  005  TestPatch"));
    assert!(!fr.items[7].bright);
    assert_eq!(fr.items[0].y, 80);
    assert_eq!(fr.items[1].y, 80 + 24);
    assert_eq!(fr.items[7].y, 80 + 7 * 24);
}

#[test]
fn focus_move_changes_exactly_two_rows() {
    let mut m = MenuState::new(2, 0, 0);
    let f0 = build_frame(&m, "P", None, None, None, true, None, 60, 80);
    m.on_turn(1);
    let f1 = build_frame(&m, "P", None, None, None, true, None, 60, 80);
    let ops = diff(&f0, &f1);
    assert_eq!(ops.len(), 4);
    let card_y = 80 + 24;
    let bank_y = 80 + 2 * 24;
    for op in ops.iter() {
        let y = match *op {
            PaintOp::Erase(i) => f0.items[i as usize].y,
            PaintOp::Draw(i) => f1.items[i as usize].y,
        };
        assert!(
            y == card_y || y == bank_y,
            "op outside the two focus rows: y={}",
            y
        );
    }
}

#[test]
fn status_disappearance_is_single_erase() {
    let m = MenuState::new(2, 0, 0);
    let f0 = build_frame(&m, "P", None, None, Some("Saved U000"), true, None, 60, 80);
    let f1 = build_frame(&m, "P", None, None, None, true, None, 60, 80);
    let ops = diff(&f0, &f1);
    assert_eq!(ops.len(), 1);
    assert!(matches!(ops[0], PaintOp::Erase(_)));
}

#[test]
fn card_switch_replaces_body_rows() {
    let mut m = MenuState::new(2, 0, 0);
    let f0 = build_frame(&m, "P", None, None, None, true, None, 60, 80);
    let _ = m.on_press();
    let _ = m.on_turn(1);
    let f1 = build_frame(&m, "P", None, None, None, true, None, 60, 80);
    let ops = diff(&f0, &f1);
    assert!(!ops.is_empty() && ops.len() <= MAX_OPS);
    assert!(ops.iter().all(|op| {
        let (fr, i) = match *op {
            PaintOp::Erase(i) => (&f0, i),
            PaintOp::Draw(i) => (&f1, i),
        };
        fr.items[i as usize].y > 80
    }));
}

#[test]
fn patch_edit_frame_has_indicators_and_save() {
    let mut m = MenuState::new(2, 0, 0);
    m.card = Card::PatchEdit;
    m.edit_scroll = 1;
    let fr = build_frame(&m, "P", None, Some("SlotName"), None, true, None, 60, 80);
    assert_eq!(fr.items.len(), 11);
    assert!(fr
        .items
        .iter()
        .any(|it| it.text.as_str() == "^" && it.x == 50));
    assert!(fr
        .items
        .iter()
        .any(|it| it.text.as_str() == "v" && it.x == 50));
    assert!(fr.items.last().unwrap().text.contains("Save"));
}

#[test]
fn non_lead_patch_edit_frame_is_gated() {
    let mut m = MenuState::new(2, 0, 0);
    m.card = Card::PatchEdit;
    let fr = build_frame(&m, "P", None, None, None, false, None, 60, 80);
    assert_eq!(fr.items.len(), 4);
    assert!(fr.items[2].text.contains("Lead patches only"));
}


#[test]
fn usb_mode_row_toggles_and_reports_settings_change() {
    let mut m = MenuState::new(1, 0, 0);
    assert!(!m.usb_storage);
    m.focus = MAIN_ROW_USBMODE;
    let _ = m.on_press();
    assert_eq!(m.on_turn(1), TurnResult::SettingsChanged);
    assert!(m.usb_storage);
    assert_eq!(m.on_turn(1), TurnResult::SettingsChanged);
    assert!(!m.usb_storage);
}

#[test]
fn usb_card_unreachable_unless_storage_mode() {
    let mut m = MenuState::new(1, 0, 0);
    let _ = m.on_press();
    for _ in 0..5 {
        let _ = m.on_turn(1);
    }
    assert_eq!(m.card, Card::PatchEdit);
    m.usb_storage = true;
    let _ = m.on_turn(1);
    assert_eq!(m.card, Card::Usb);
}

#[test]
fn usb_file_row_scrolls_and_loads_on_press() {
    let mut m = MenuState::new(1, 0, 0);
    m.usb_storage = true;
    m.card = Card::Usb;
    m.usb_file_count = 3;
    m.focus = USB_ROW_FILE;
    assert_eq!(m.on_press(), PressResult::Toggled);
    let _ = m.on_turn(2);
    assert_eq!(m.usb_file, 1);
    let _ = m.on_turn(10);
    assert_eq!(m.usb_file, 2);
    assert_eq!(m.on_press(), PressResult::UsbLoad(2));
    assert_eq!(m.mode, Mode::Nav);
}

#[test]
fn usb_file_row_with_no_files_cancels() {
    let mut m = MenuState::new(1, 0, 0);
    m.usb_storage = true;
    m.card = Card::Usb;
    m.usb_file_count = 0;
    m.focus = USB_ROW_FILE;
    let _ = m.on_press();
    let _ = m.on_turn(5);
    assert_eq!(m.usb_file, -1);
    assert_eq!(m.on_press(), PressResult::Cancel);
}

#[test]
fn usb_loadslot_row_commits_file_and_slot() {
    let mut m = MenuState::new(1, 0, 0);
    m.usb_storage = true;
    m.card = Card::Usb;
    m.usb_file_count = 2;
    m.usb_file = 1;
    m.focus = USB_ROW_LOADSLOT;
    assert_eq!(m.on_press(), PressResult::Toggled);
    assert_eq!(m.usb_slot, -1);
    let _ = m.on_turn(4);
    assert_eq!(
        m.on_press(),
        PressResult::UsbLoadToSlot { file: 1, slot: 3 }
    );
}

#[test]
fn usb_loadslot_without_file_cancels() {
    let mut m = MenuState::new(1, 0, 0);
    m.usb_storage = true;
    m.card = Card::Usb;
    m.usb_file = -1;
    m.focus = USB_ROW_LOADSLOT;
    let _ = m.on_press();
    let _ = m.on_turn(4);
    assert_eq!(m.on_press(), PressResult::Cancel);
}

#[test]
fn build_frame_usb_card_rows() {
    let mut m = MenuState::new(1, 0, 0);
    m.usb_storage = true;
    m.card = Card::Usb;
    m.usb_file_count = 2;
    m.usb_file = 0;
    let usb = UsbInfo {
        drive: DriveState::Ready,
        file_name: Some("LEAD1.SYX"),
        file_count: 2,
        slot_name: None,
    };
    let fr = build_frame(&m, "P", None, None, None, true, Some(&usb), 60, 80);
    assert_eq!(fr.items.len(), 7);
    assert!(fr.items[2].text.contains("Ready"));
    assert!(fr.items[3].text.contains("LEAD1.SYX"));
    assert!(fr.items[4].text.contains("Load>Slot"));
    assert!(fr.items[5].text.contains("Export"));
    assert!(fr.items[6].text.contains("Import"));
}

#[test]
fn usb_export_row_selects_edit_or_slot() {
    let mut m = MenuState::new(1, 0, 0);
    m.usb_storage = true;
    m.card = Card::Usb;
    m.focus = USB_ROW_EXPORT;
    assert_eq!(m.on_press(), PressResult::Toggled);
    assert_eq!(m.usb_export, -1);
    let _ = m.on_turn(1);
    assert_eq!(
        m.on_press(),
        PressResult::UsbExport {
            source: ExportSource::Edit
        }
    );
    let _ = m.on_press();
    let _ = m.on_turn(3);
    assert_eq!(
        m.on_press(),
        PressResult::UsbExport {
            source: ExportSource::Slot(1)
        }
    );
    let _ = m.on_press();
    assert_eq!(m.on_press(), PressResult::Cancel);
}

#[test]
fn usb_import_row_cancel_first_confirm() {
    let mut m = MenuState::new(2, 0, 0);
    m.usb_storage = true;
    m.card = Card::Usb;
    assert_eq!(m.row_count(), 5);
    m.focus = USB_ROW_IMPORT;
    assert_eq!(m.on_press(), PressResult::Toggled);
    assert_eq!(m.usb_import, -1, "must enter Edit at Cancel");
    assert_eq!(m.on_press(), PressResult::Cancel);
    assert_eq!(m.mode, Mode::Nav);

    assert_eq!(m.on_press(), PressResult::Toggled);
    assert!(matches!(m.on_turn(1), TurnResult::Idle));
    assert_eq!(m.usb_import, 0);
    assert!(matches!(m.on_turn(5), TurnResult::Idle));
    assert_eq!(m.usb_import, 0, "cursor clamps at REPLACE");
    assert!(matches!(m.on_turn(-1), TurnResult::Idle));
    assert_eq!(m.usb_import, -1, "turn back disarms to Cancel");
    assert!(matches!(m.on_turn(1), TurnResult::Idle));
    assert_eq!(m.on_press(), PressResult::UsbImportBank);
    assert_eq!(m.mode, Mode::Nav);
}

#[test]
fn usb_import_row_renders_cancel_and_replace() {
    let mut m = MenuState::new(2, 0, 0);
    m.usb_storage = true;
    m.card = Card::Usb;
    m.focus = USB_ROW_IMPORT;
    let usb = UsbInfo {
        drive: DriveState::Ready,
        file_name: None,
        file_count: 0,
        slot_name: None,
    };
    let f = build_frame(&m, "P", None, None, None, true, Some(&usb), 60, 80);
    assert!(f.items.iter().any(|it| it.text.contains("Import   Cancel")));
    m.on_press();
    m.on_turn(1);
    let f = build_frame(&m, "P", None, None, None, true, Some(&usb), 60, 80);
    assert!(f
        .items
        .iter()
        .any(|it| it.text.contains("Import   REPLACE bank!")));
}

#[test]
fn build_frame_main_shows_usb_mode_row() {
    let m = MenuState::new(1, 0, 0);
    let fr = build_frame(&m, "P", None, None, None, true, None, 60, 80);
    assert_eq!(fr.items.len(), 8);
    assert!(fr.items[6].text.contains("USB Mode MIDI"));
}

#[test]
fn menu_name_from_cstr_invalid_utf8_is_question_mark() {
    let mut buf = [0u8; 17];
    buf[0] = 0xFF;
    buf[1] = b'A';
    assert_eq!(name_from_cstr(&buf), "?");
    let empty = [0u8; 17];
    assert_eq!(name_from_cstr(&empty), "");
}

#[test]
fn menu_labels_are_exact() {
    assert_eq!(Engine::from_byte(1).label(), "Bass");
    assert_eq!(MidiSource::Trs.label(), "TRS");
    assert_eq!(MidiSource::Usb.label(), "USB");
    assert_eq!(VoiceMode::from_vflags(0x01).label(), "Legato");
    assert_eq!(detail_line(Some((Engine::Drum, None))).as_str(), format!("  {}  {}", "Drum", Engine::Drum.ch_map()));
}

#[test]
fn menu_commit_needs_save_row_edit_press() {
    let mut m = MenuState::new(2, 0, 0);
    for row in [ROW_CARD, MAIN_ROW_BANK, MAIN_ROW_PROGRAM, MAIN_ROW_MIDISRC, MAIN_ROW_USBMODE] {
        m.focus = row;
        assert_eq!(m.on_press(), PressResult::Toggled);
        let _ = m.on_turn(3);
        let r = m.on_press();
        assert!(!matches!(r, PressResult::Commit(_)));
        if m.card != Card::Main {
            let _ = m.on_press();
            let _ = m.on_turn(-10);
            let _ = m.on_press();
        }
    }
}

#[test]
fn menu_card_edit_keeps_focus_on_card_row() {
    let mut m = MenuState::new(1, 0, 0);
    let _ = m.on_press();
    for d in [1i8, 1, -1, 5, -5] {
        let _ = m.on_turn(d);
        assert_eq!(m.focus, ROW_CARD);
        assert!(m.focus < m.row_count());
    }
}

#[test]
fn menu_user_bank_with_single_bank_and_row_counts() {
    let m = MenuState::new(1, 0, 0);
    assert!(m.is_user_bank());
    assert_eq!(m.row_count(), 6);
    let mut cv = MenuState::new(1, 0, 0);
    cv.card = Card::CvMod;
    assert_eq!(cv.row_count(), 5);
    assert!(!cv.is_save_row());
}

#[test]
fn menu_edit_main_frame_uses_edit_marker() {
    let mut m = MenuState::new(2, 1, 7);
    m.focus = MAIN_ROW_PROGRAM;
    let _ = m.on_press();
    let fr = build_frame(&m, "Name", None, None, None, true, None, 0, 0);
    assert!(fr.items[3].text.starts_with("# "));
    assert!(fr.items[3].bright);
    let ops = diff(&fr, &fr);
    assert!(ops.is_empty());
    assert!(ops.len() <= MAX_OPS);
    let _ = PaintOp::Draw(0);
    let _ = CvTarget::Off;
    let _ = DriveState::NoDrive;
    let _ = ExportSource::Edit;
    let _ = UsbInfo { drive: DriveState::Busy, file_name: None, file_count: 0, slot_name: None };
    let _ = (USB_ROW_EXPORT, USB_ROW_FILE, USB_ROW_IMPORT, USB_ROW_LOADSLOT, N_PARAMS);
    let _ = lead_params();
}

#[test]
fn patch_detail_shows_voice_mode_for_lead_only() {
    assert_eq!(patch_detail(0, 0x08), (Engine::Lead, Some(VoiceMode::Poly)));
    assert_eq!(patch_detail(0, 0x01), (Engine::Lead, Some(VoiceMode::Legato)));
    assert_eq!(patch_detail(9, 0x00), (Engine::Lead, Some(VoiceMode::Mono)));
    assert_eq!(patch_detail(1, 0x08), (Engine::Bassline, None));
    assert_eq!(patch_detail(3, 0x01), (Engine::Multi, None));
}

#[test]
fn menu_usb_midi_host_only_for_usb_source_outside_storage_mode() {
    let mut m = MenuState::new(1, 0, 0);
    m.midi_src = MidiSource::Trs;
    m.usb_storage = false;
    assert!(!m.usb_midi_host());
    m.midi_src = MidiSource::Usb;
    assert!(m.usb_midi_host());
    m.usb_storage = true;
    assert!(!m.usb_midi_host());
}

#[test]
fn menu_shown_name_falls_back_to_empty() {
    let mut buf = [0u8; 17];
    buf[..4].copy_from_slice(b"Lead");
    assert_eq!(tiliqua_fw::mbsid::menu::shown_name(true, &buf), "Lead");
    assert_eq!(tiliqua_fw::mbsid::menu::shown_name(false, &buf), "Empty");
    buf[0] = 0xFF;
    assert_eq!(tiliqua_fw::mbsid::menu::shown_name(true, &buf), "?");
}

#[test]
fn build_frame_title_stops_at_32_bytes() {
    let mut m = MenuState::new(2, 0, 0);
    let name25 = "ABCDEFGHIJKLMNOPQRSTUVWXY";
    let fr = build_frame(&m, name25, None, None, None, true, None, 60, 80);
    assert_eq!(fr.items[0].text.as_str(), "MBSID  ABCDEFGHIJKLMNOPQRSTUVWXY");
    // A 26-byte name does not fit beside the prefix, so it is left out.
    let fr = build_frame(&m, "ABCDEFGHIJKLMNOPQRSTUVWXYZ", None, None, None, true, None, 60, 80);
    assert_eq!(fr.items[0].text.as_str(), "MBSID  ");
    // The edited marker is dropped when it would pass 32 bytes.
    m.edited = true;
    let fr = build_frame(&m, name25, None, None, None, true, None, 60, 80);
    assert_eq!(fr.items[0].text.as_str(), "MBSID  ABCDEFGHIJKLMNOPQRSTUVWXY");
    let fr = build_frame(&m, "ABCDEFGHIJKLMNOPQRSTUVW", None, None, None, true, None, 60, 80);
    assert_eq!(fr.items[0].text.as_str(), "MBSID  ABCDEFGHIJKLMNOPQRSTUVW *");
}

#[test]
fn build_frame_export_row_formats_any_cursor() {
    let mut m = MenuState::new(1, 0, 0);
    m.usb_storage = true;
    m.card = Card::Usb;
    m.focus = 0;
    m.usb_export = 13;
    let fr = build_frame(&m, "P", None, None, None, true, None, 60, 80);
    assert_eq!(fr.items[5].text.as_str(), "  Export   U012 -> USB");
    // A cursor below Cancel prints its signed slot number, zero padded.
    m.usb_export = -5;
    let fr = build_frame(&m, "P", None, None, None, true, None, 60, 80);
    assert_eq!(fr.items[5].text.as_str(), "  Export   U-06 -> USB");
    m.usb_export = -200;
    let fr = build_frame(&m, "P", None, None, None, true, None, 60, 80);
    assert_eq!(fr.items[5].text.as_str(), "  Export   U-201 -> USB");
}

#[test]
fn build_frame_edit_window_at_list_end_is_empty() {
    let mut m = MenuState::new(1, 0, 0);
    m.card = Card::PatchEdit;
    m.focus = 0;
    m.edit_scroll = N_PARAMS as u8;
    let fr = build_frame(&m, "P", None, None, None, true, None, 60, 80);
    // Title, card row, the up mark, and the Save row right below the card row's gap.
    assert_eq!(fr.items.len(), 4);
    assert_eq!(fr.items[2].text.as_str(), "^");
    assert_eq!(fr.items[3].y, 80 + 2 * 24);
}

#[test]
fn build_frame_status_may_sit_at_the_last_row() {
    // Without a status line the Main card reaches seven rows down only.
    let m = MenuState::new(1, 0, 0);
    let y = i32::MAX - 7 * 24;
    let fr = build_frame(&m, "P", None, None, None, true, None, 60, y);
    assert_eq!(fr.items.len(), 8);
    assert_eq!(fr.items[7].y, i32::MAX);
}

#[test]
fn menu_turn_fits_only_where_the_moved_cursor_overflows() {
    let mut m = MenuState::new(1, 0, 0);
    m.focus = MAIN_ROW_SAVE;
    m.mode = Mode::Edit;
    m.save_cursor = i16::MAX;
    assert!(!m.turn_fits(1));
    assert!(m.turn_fits(-1));
    // A far-out cursor that the turn does not move is no obstacle.
    m.usb_export = i16::MIN;
    m.focus = MAIN_ROW_PROGRAM;
    assert!(m.turn_fits(127));
    assert_eq!(m.on_turn(3), TurnResult::Load);
    assert_eq!(m.program, 3);
    assert!(m.press_fits());
}

#[test]
fn menu_press_fits_except_export_at_i16_min() {
    let mut m = MenuState::new(1, 0, 0);
    m.usb_storage = true;
    m.card = Card::Usb;
    m.mode = Mode::Edit;
    m.focus = USB_ROW_EXPORT;
    m.usb_export = i16::MIN;
    assert!(!m.press_fits());
    m.usb_export = -5;
    assert!(m.press_fits());
    // A cursor below Cancel names the slot one below it, wrapped to a byte.
    assert_eq!(m.on_press(), PressResult::UsbExport { source: ExportSource::Slot(250) });
}
