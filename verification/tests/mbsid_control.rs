use tiliqua_fw::mbsid::control::{midi_engine_call, persist_due, sysex_idle_step, EngineCall};
use tiliqua_fw::mbsid::cv::CvTarget;
use tiliqua_fw::mbsid::menu::{apply_settings, menu_settings, usb_listed, usb_sync, Card, MenuState, MidiSource, ROW_CARD};
use tiliqua_fw::mbsid::settings_store::Settings;
use tiliqua_fw::mbsid::usb_msc::{
    get_word, put_word, ready_wait, write_poll, BlockRead, ReadPoll, WritePoll, READ_MAX_SPIN, READY_SPIN,
    WRITE_MAX_SPIN,
};

fn word(b0: u8, b1: u8, b2: u8) -> u32 {
    b0 as u32 | (b1 as u32) << 8 | (b2 as u32) << 16
}

#[test]
fn control_midi_note_messages() {
    assert_eq!(midi_engine_call(word(0x92, 60, 100)), EngineCall::NoteOn(2, 60, 100));
    assert_eq!(midi_engine_call(word(0x92, 60, 0)), EngineCall::NoteOff(2, 60));
    assert_eq!(midi_engine_call(word(0x85, 61, 64)), EngineCall::NoteOff(5, 61));
    // Data bytes above 127 read as 127.
    assert_eq!(midi_engine_call(word(0x90, 0xFF, 0x80)), EngineCall::NoteOn(0, 127, 127));
}

#[test]
fn control_midi_controllers_bend_and_programs() {
    assert_eq!(midi_engine_call(word(0xB1, 7, 99)), EngineCall::Cc(1, 7, 99));
    assert_eq!(midi_engine_call(word(0xD3, 42, 0)), EngineCall::Aftertouch(3, 42));
    assert_eq!(midi_engine_call(word(0xCF, 12, 0)), EngineCall::ProgramChange(12));
    assert_eq!(midi_engine_call(word(0xE0, 0x00, 0x40)), EngineCall::PitchBend(0, 8192));
    assert_eq!(midi_engine_call(word(0xE4, 0x7F, 0x7F)), EngineCall::PitchBend(4, 16383));
    assert_eq!(midi_engine_call(word(0xE4, 0xFF, 0x81)), EngineCall::PitchBend(4, (1 << 7) | 0x7F));
}

#[test]
fn control_midi_ignored_messages() {
    assert_eq!(midi_engine_call(0), EngineCall::Nothing);
    assert_eq!(midi_engine_call(word(0xA0, 60, 10)), EngineCall::Nothing);
    assert_eq!(midi_engine_call(word(0xF8, 0, 0)), EngineCall::Nothing);
    assert_eq!(midi_engine_call(word(0x40, 1, 2)), EngineCall::Nothing);
    assert_eq!(midi_engine_call(word(0xF0, 0, 0)), EngineCall::Nothing);
}

#[test]
fn control_sysex_watchdog() {
    assert_eq!(sysex_idle_step(5, true, true, 100), (0, false));
    assert_eq!(sysex_idle_step(5, false, false, 100), (0, false));
    assert_eq!(sysex_idle_step(5, false, true, 100), (6, false));
    assert_eq!(sysex_idle_step(99, false, true, 100), (0, true));
    assert_eq!(sysex_idle_step(u16::MAX, false, true, u16::MAX), (0, true));
}

#[test]
fn control_settings_debounce() {
    assert!(!persist_due(None, 10_000));
    assert!(!persist_due(Some(1000), 2999));
    assert!(persist_due(Some(1000), 3000));
    assert!(persist_due(Some(u32::MAX - 100), 1900));
}

#[test]
fn menu_settings_roundtrip_through_record() {
    let mut m = MenuState::new(2, 0, 0);
    let s = Settings { midi_src: 1, cv_targets: [0, 3, 11, 12], usb_mode: 1 };
    apply_settings(&mut m, &s);
    assert_eq!(m.midi_src, MidiSource::Usb);
    assert_eq!(m.cv_targets, [CvTarget::Off, CvTarget::Knob3, CvTarget::Pitch, CvTarget::Gate]);
    assert!(m.usb_storage);
    assert_eq!(menu_settings(&m), s);
    let unknown = Settings { midi_src: 7, cv_targets: [200, 1, 1, 1], usb_mode: 0 };
    apply_settings(&mut m, &unknown);
    assert_eq!(m.midi_src, MidiSource::Trs);
    assert_eq!(m.cv_targets[0], CvTarget::Off);
    assert!(!m.usb_storage);
}

#[test]
fn menu_usb_sync_collapses_and_lists() {
    let mut m = MenuState::new(1, 0, 0);
    m.card = Card::Usb;
    m.focus = 3;
    let r = usb_sync(&mut m, false, false);
    assert!(r.dirty && !r.scan && !r.drop_list);
    assert_eq!((m.card, m.focus), (Card::Main, ROW_CARD));

    m.usb_storage = true;
    m.card = Card::Usb;
    let r = usb_sync(&mut m, true, false);
    assert!(r.scan && r.dirty);
    usb_listed(&mut m, 3);
    assert_eq!((m.usb_file, m.usb_file_count), (0, 3));

    let r = usb_sync(&mut m, false, true);
    assert!(r.drop_list && r.dirty && !r.scan);
    assert_eq!((m.usb_file, m.usb_file_count), (-1, 0));
    usb_listed(&mut m, 0);
    assert_eq!(m.usb_file, -1);
}

#[test]
fn msc_words_are_little_endian_and_roundtrip() {
    let mut buf = [0u8; 512];
    put_word(&mut buf, 1, 0x0403_0201);
    assert_eq!(&buf[4..8], &[1, 2, 3, 4]);
    assert_eq!(get_word(&buf, 1), 0x0403_0201);
    assert_eq!(get_word(&buf, 0), 0);
    let mut r = BlockRead::new();
    for i in 0..128u32 {
        assert_eq!(r.poll(true, false), ReadPoll::Word);
        let done = r.take_word(&mut buf, i);
        assert_eq!(done, i == 127);
    }
    for i in 0..128usize {
        assert_eq!(get_word(&buf, i), i as u32);
    }
}

#[test]
fn msc_poll_decisions() {
    let mut r = BlockRead::new();
    assert_eq!(r.poll(false, false), ReadPoll::Wait);
    assert_eq!(r.spins, 1);
    assert_eq!(r.poll(false, true), ReadPoll::Failed(2));
    let mut late = BlockRead { word: 5, spins: READ_MAX_SPIN - 1 };
    assert_eq!(late.poll(false, false), ReadPoll::Failed(3));
    assert_eq!(late.failure(3, 77, (1, 2, 3, 4)), (3, 5, 77, READ_MAX_SPIN, 1, 2, 3, 4));
    assert_eq!(ready_wait(0, true), (0, false));
    assert_eq!(ready_wait(READY_SPIN - 1, false), (READY_SPIN, true));
    assert_eq!(write_poll(3, true, false), (WritePoll::Written, 3));
    assert_eq!(write_poll(3, true, true), (WritePoll::Failed, 3));
    assert_eq!(write_poll(3, false, false), (WritePoll::Wait, 4));
    assert_eq!(write_poll(WRITE_MAX_SPIN - 1, false, false), (WritePoll::TimedOut, WRITE_MAX_SPIN));
}
