use tiliqua_fw::mbsid::mbsid_sys::{
    aftertouch, bank_count, bank_load, bank_patch_info, bank_patch_name, cc, init, load_patch, note_off, note_on,
    pitch_bend, program_change, regs_l, regs_r, tick,
};

#[test]
fn host_stubs_are_sane() {
    assert!(bank_count() >= 1);
    assert!(bank_load(0, 0));
    let mut buf = [0u8; 17];
    bank_patch_name(0, 0, &mut buf);
    assert!(buf.iter().any(|&c| c != 0), "name stub must be non-empty");
    assert_eq!(buf[16], 0, "buffer must stay NUL-terminated");
}

#[test]
fn bank_patch_info_stub_returns_lead_mono() {
    let info = bank_patch_info(0, 0);
    assert!(info.is_some(), "stub must return Some");
    let (eng, vfl) = info.unwrap();
    assert_eq!(eng, 0, "stub engine must be Lead (0)");
    assert_eq!(vfl, 0, "stub vflags must be 0 (Mono)");
}

#[test]
fn host_engine_stub_is_silent_and_named() {
    init();
    note_on(0, 60, 100);
    note_off(0, 60);
    pitch_bend(0, 0x2000);
    cc(0, 1, 64);
    aftertouch(0, 10);
    program_change(3);
    assert!(load_patch(&[0u8; 512]));
    assert!(!tick());
    assert_eq!(regs_l(), [0u8; 32]);
    assert_eq!(regs_r(), [0u8; 32]);
    let mut buf = [0xAAu8; 17];
    bank_patch_name(0, 5, &mut buf);
    assert_eq!(&buf[..16], b"HOST STUB PATCH\0");
    assert_eq!(buf[16], 0xAA);
}
