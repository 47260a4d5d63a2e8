use tiliqua_fw::mbsid::cv::{CvRecorder, CvState, CvTarget};

const V: i32 = 4096;

#[test]
fn target_persistence_roundtrip_and_unknown_is_off() {
    for t in [CvTarget::Off, CvTarget::Knob3, CvTarget::Cutoff, CvTarget::Gate] {
        assert_eq!(CvTarget::from_u8(t.to_u8()), t);
    }
    assert_eq!(CvTarget::from_u8(0xEE), CvTarget::Off);
}

#[test]
fn knob_target_scales_0_to_5v_and_deadbands() {
    let mut cv = CvState::new();
    let mut s = CvRecorder::new();
    cv.set_targets([CvTarget::Knob1, CvTarget::Off, CvTarget::Off, CvTarget::Off], &mut s);
    cv.tick([0, 0, 0, 0], &mut s);
    cv.tick([5 * V, 0, 0, 0], &mut s);
    cv.tick([5 * V, 0, 0, 0], &mut s);
    cv.tick([6 * V, 0, 0, 0], &mut s);
    assert_eq!(s.knobs(), &[(0, 0), (0, 255)]);
}

#[test]
fn par_target_uses_common_block_numbers() {
    let mut cv = CvState::new();
    let mut s = CvRecorder::new();
    cv.set_targets([CvTarget::Cutoff, CvTarget::Reso, CvTarget::Volume, CvTarget::Detune], &mut s);
    cv.tick([5 * V, 5 * V, 5 * V, 5 * V], &mut s);
    let pars: heapless::Vec<u8, 16> = s.pars().iter().map(|(p, _)| *p).collect();
    assert_eq!(pars.as_slice(), &[0x04, 0x05, 0x01, 0x03]);
    assert!(s.pars().iter().all(|(_, v)| *v == 0xFFFF));
}

#[test]
fn gate_hysteresis_and_fixed_note_without_pitch() {
    let mut cv = CvState::new();
    let mut s = CvRecorder::new();
    cv.set_targets([CvTarget::Gate, CvTarget::Off, CvTarget::Off, CvTarget::Off], &mut s);
    cv.tick([8193, 0, 0, 0], &mut s);
    assert_eq!(s.ons(), &[60]);
    cv.tick([5000, 0, 0, 0], &mut s);
    assert!(s.offs().is_empty());
    cv.tick([4095, 0, 0, 0], &mut s);
    assert_eq!(s.offs(), &[60]);
}

#[test]
fn pitch_tracks_voct_with_legato_retrigger() {
    let mut cv = CvState::new();
    let mut s = CvRecorder::new();
    cv.set_targets([CvTarget::Pitch, CvTarget::Gate, CvTarget::Off, CvTarget::Off], &mut s);
    cv.tick([0, 3 * V, 0, 0], &mut s);
    assert_eq!(s.ons(), &[36]);
    cv.tick([1 * V, 3 * V, 0, 0], &mut s);
    assert_eq!(s.ons(), &[36, 48]);
    assert_eq!(s.offs(), &[36]);
    cv.tick([1 * V, 0, 0, 0], &mut s);
    assert_eq!(s.offs(), &[36, 48]);
}

#[test]
fn pitch_quantizer_hysteresis_no_flutter_on_boundary() {
    let mut cv = CvState::new();
    let mut s = CvRecorder::new();
    cv.set_targets([CvTarget::Pitch, CvTarget::Gate, CvTarget::Off, CvTarget::Off], &mut s);
    cv.tick([100, 3 * V, 0, 0], &mut s);
    cv.tick([180, 3 * V, 0, 0], &mut s);
    cv.tick([100, 3 * V, 0, 0], &mut s);
    assert_eq!(s.ons(), &[36], "boundary jitter must not retrigger");
    cv.tick([300, 3 * V, 0, 0], &mut s);
    assert_eq!(s.ons(), &[36, 37]);
}

#[test]
fn pitch_without_gate_does_nothing() {
    let mut cv = CvState::new();
    let mut s = CvRecorder::new();
    cv.set_targets([CvTarget::Pitch, CvTarget::Off, CvTarget::Off, CvTarget::Off], &mut s);
    cv.tick([2 * V, 0, 0, 0], &mut s);
    assert!(s.ons().is_empty() && s.offs().is_empty() && s.knobs().is_empty() && s.pars().is_empty());
}

#[test]
fn clearing_gate_target_releases_held_note() {
    let mut cv = CvState::new();
    let mut s = CvRecorder::new();
    cv.set_targets([CvTarget::Gate, CvTarget::Off, CvTarget::Off, CvTarget::Off], &mut s);
    cv.tick([3 * V, 0, 0, 0], &mut s);
    assert_eq!(s.ons(), &[60]);
    cv.set_targets([CvTarget::Off; 4], &mut s);
    assert_eq!(s.offs(), &[60]);
}

#[test]
fn cv_every_target_code_roundtrips_and_labels_are_nonempty() {
    for code in 0u8..13 {
        let t = CvTarget::from_u8(code);
        assert_eq!(t.to_u8(), code);
        assert!(!t.label().is_empty());
    }
    for code in 13u8..=255 {
        assert_eq!(CvTarget::from_u8(code), CvTarget::Off);
    }
}

#[test]
fn cv_target_step_clamps_at_both_ends() {
    assert_eq!(CvTarget::Off.step(1), CvTarget::Knob1);
    assert_eq!(CvTarget::Off.step(-1), CvTarget::Off);
    assert_eq!(CvTarget::Gate.step(1), CvTarget::Gate);
    assert_eq!(CvTarget::Knob1.step(100), CvTarget::Gate);
    assert_eq!(CvTarget::Knob1.step(0), CvTarget::Knob1);
}

#[test]
fn cv_steady_input_is_silent_after_first_tick() {
    let mut cv = CvState::default();
    let mut s = CvRecorder::new();
    cv.set_targets([CvTarget::Knob2, CvTarget::Cutoff, CvTarget::Gate, CvTarget::Off], &mut s);
    let x = [2 * V, V, 3 * V, 0];
    cv.tick(x, &mut s);
    let (k, p, on) = (s.knobs().len(), s.pars().len(), s.ons().len());
    for _ in 0..5 {
        cv.tick(x, &mut s);
    }
    assert_eq!((s.knobs().len(), s.pars().len(), s.ons().len()), (k, p, on));
    assert!(s.offs().is_empty());
    assert_eq!(cv.targets(), [CvTarget::Knob2, CvTarget::Cutoff, CvTarget::Gate, CvTarget::Off]);
}

#[test]
fn cv_retargeting_resends_unchanged_values() {
    let mut cv = CvState::new();
    let mut s = CvRecorder::new();
    let t = [CvTarget::Knob2, CvTarget::Cutoff, CvTarget::Off, CvTarget::Off];
    cv.set_targets(t, &mut s);
    cv.tick([5 * V, 0, 0, 0], &mut s);
    cv.tick([5 * V, 0, 0, 0], &mut s);
    assert_eq!(s.knobs(), &[(1, 255)]);
    assert_eq!(s.pars(), &[(0x04, 0)]);
    // The same assignments again: the unchanged readings are sent once more.
    cv.set_targets(t, &mut s);
    cv.tick([5 * V, 0, 0, 0], &mut s);
    assert_eq!(s.knobs(), &[(1, 255), (1, 255)]);
    assert_eq!(s.pars(), &[(0x04, 0), (0x04, 0)]);
}
