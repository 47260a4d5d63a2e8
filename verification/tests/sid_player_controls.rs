use tiliqua_fw::sid_player::controls as hw;
use tiliqua_fw::sid_player_sw::controls::{
    repaint_due, row_label, rows_in, Controls, Page, PressAction, Redraw, TurnAction,
};

#[test]
fn sw_navigation_clamps_to_card_rows() {
    let mut c = Controls::new(1);
    assert_eq!(c.on_ticks(-3, 4, 3), (TurnAction::Select, Redraw::Keep));
    assert_eq!(c.selected, 0);
    assert_eq!(c.on_ticks(100, 4, 3), (TurnAction::Select, Redraw::Keep));
    assert_eq!(c.selected, 4);
    assert_eq!(rows_in(Page::Player), 5);
    assert_eq!(rows_in(Page::Scope), 6);
}

#[test]
fn sw_page_row_switches_card_and_clears_header() {
    let mut c = Controls::new(1);
    assert_eq!(c.on_press(0), (PressAction::ToggleModify, Redraw::Row(0)));
    assert!(c.modify);
    assert_eq!(c.on_ticks(1, 0, 1), (TurnAction::PageSwitched, Redraw::Full));
    assert_eq!(c.page, Page::Scope);
    assert_eq!(c.selected, 0);
    // Further turns stay on the last card.
    assert_eq!(c.on_ticks(5, 0, 1), (TurnAction::PageSwitched, Redraw::Full));
    assert_eq!(c.page, Page::Scope);
    assert_eq!(c.on_ticks(-1, 0, 1), (TurnAction::PageSwitched, Redraw::Full));
    assert_eq!(c.page, Page::Player);
}

#[test]
fn sw_scope_values_stay_in_range() {
    let mut c = Controls::new(1);
    c.page = Page::Scope;
    c.selected = 1;
    c.modify = true;
    assert_eq!(c.on_ticks(100, 0, 1), (TurnAction::Decay(80), Redraw::Row(1)));
    assert_eq!(c.on_ticks(-100, 0, 1), (TurnAction::Decay(1), Redraw::Row(1)));
    c.selected = 2;
    assert_eq!(c.on_ticks(127, 0, 1), (TurnAction::Timebase(12), Redraw::Row(2)));
    c.selected = 3;
    assert_eq!(c.on_ticks(1, 0, 1), (TurnAction::YScale(3), Redraw::Row(3)));
    c.selected = 4;
    assert_eq!(c.on_ticks(10, 0, 1), (TurnAction::Intensity(15), Redraw::Row(4)));
    c.selected = 5;
    assert_eq!(c.on_ticks(-1, 0, 1), (TurnAction::Hue(0), Redraw::Row(5)));
}

#[test]
fn sw_subtune_and_clock_edits() {
    let mut c = Controls::new(2);
    c.selected = 2;
    c.modify = true;
    assert_eq!(c.on_ticks(5, 0, 4), (TurnAction::Subtune(4), Redraw::Row(2)));
    assert_eq!(c.subtune, 4);
    assert_eq!(c.on_ticks(-9, 0, 4), (TurnAction::Subtune(1), Redraw::Row(2)));
    // A single-song tune has no subtunes to pick.
    assert_eq!(c.on_ticks(1, 0, 1), (TurnAction::Idle, Redraw::Row(2)));
    assert_eq!(c.subtune, 1);
    c.selected = 3;
    assert_eq!(c.on_ticks(7, 0, 1), (TurnAction::Clock(2), Redraw::Row(3)));
    assert_eq!(c.clock_sel, 2);
}

#[test]
fn sw_file_browse_and_commit() {
    let mut c = Controls::new(1);
    c.selected = 1;
    assert_eq!(c.on_press(0).0, PressAction::Idle);
    assert_eq!(c.on_press(3).0, PressAction::StartBrowse);
    assert!(c.modify);
    assert_eq!(c.browse_idx, 0);
    assert_eq!(c.on_ticks(9, 3, 1), (TurnAction::Browse, Redraw::Row(1)));
    assert_eq!(c.browse_idx, 2);
    assert_eq!(c.on_press(3), (PressAction::Load(2), Redraw::Row(1)));
    assert!(!c.modify);
    c.tune_started(2, 3);
    assert_eq!((c.current_file, c.subtune, c.paused, c.unsupported), (2, 3, false, false));
    // Browsing back onto the playing file loads nothing.
    assert_eq!(c.on_press(3).0, PressAction::StartBrowse);
    assert_eq!(c.browse_idx, 2);
    assert_eq!(c.on_press(3).0, PressAction::Close);
}

#[test]
fn sw_state_row_pauses_and_labels() {
    let mut c = Controls::new(1);
    c.selected = 4;
    assert_eq!(c.state_label(), "PLAYING");
    assert_eq!(c.on_press(0), (PressAction::Pause(true), Redraw::Row(4)));
    assert_eq!(c.state_label(), "PAUSED");
    c.rejected();
    assert_eq!(c.state_label(), "UNSUPPORTED!");
    c.resumed();
    assert!(!c.paused);
    assert_eq!(row_label(Page::Player, 0), "Menu");
    assert_eq!(row_label(Page::Player, 3), "Clock");
    assert_eq!(row_label(Page::Scope, 3), "Y-Scale");
    assert_eq!(row_label(Page::Scope, 5), "Hue");
}

#[test]
fn sw_repaint_pacing() {
    assert!(repaint_due(true, 0, 50));
    assert!(!repaint_due(false, 0, 50));
    assert!(repaint_due(false, 1, 50));
    assert!(!repaint_due(false, 1, 61));
    assert!(repaint_due(false, 2, 61));
    assert!(repaint_due(false, u32::MAX, u32::MAX));
}

#[test]
fn hw_controls_rows_and_subtunes() {
    let mut c = hw::Controls::new(1);
    assert_eq!(c.on_ticks(9, 2, 5), hw::TurnAction::Select);
    assert_eq!(c.selected, 2);
    assert_eq!(c.on_press(2), hw::PressAction::Pause(true));
    assert_eq!(c.state_label(), "PAUSED");
    c.selected = 1;
    assert_eq!(c.on_press(2), hw::PressAction::ToggleModify);
    assert_eq!(c.on_ticks(3, 2, 5), hw::TurnAction::Subtune(4));
    assert_eq!(c.on_ticks(3, 2, 5), hw::TurnAction::Subtune(5));
    // A restart keeps the pause state.
    assert!(c.paused);
}

#[test]
fn hw_controls_file_commit() {
    let mut c = hw::Controls::new(1);
    assert_eq!(c.on_press(0), hw::PressAction::Idle);
    assert_eq!(c.on_press(4), hw::PressAction::StartBrowse);
    assert_eq!(c.on_ticks(-2, 4, 1), hw::TurnAction::Browse);
    assert_eq!(c.browse_idx, 0);
    assert_eq!(c.on_press(4), hw::PressAction::Close);
    assert_eq!(c.on_press(4), hw::PressAction::StartBrowse);
    assert_eq!(c.on_ticks(2, 4, 1), hw::TurnAction::Browse);
    assert_eq!(c.on_press(4), hw::PressAction::Load(2));
    c.tune_started(2, 1);
    assert_eq!(c.current_file, 2);
}
