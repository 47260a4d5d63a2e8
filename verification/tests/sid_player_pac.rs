use tiliqua_fw::sid_player::pac::generic::mask_of;
use tiliqua_fw::sid_player::pac::line::point;
use tiliqua_fw::sid_player::pac::pixel_plot::status;
use tiliqua_fw::sid_player::pac::play_timer::control;
use tiliqua_fw::sid_player::pac::sid_periph::transaction_data;

#[test]
fn pac_line_point_packs_all_fields() {
    let mut w = point::W { bits: 0 };
    w.x().bits(0x123).y().bits(0x45).pixel().bits(0xAB).cmd().set_bit();
    assert_eq!(w.bits, 0x123 | (0x45 << 12) | (0xAB << 23) | (1 << 31));
}

#[test]
fn pac_field_writes_truncate_to_width_and_keep_neighbours() {
    let mut w = point::W { bits: 0xFFFF_FFFF };
    w.x().bits(0xFFFF);
    assert_eq!(w.bits, 0xFFFF_FFFF);
    w.y().bits(0);
    assert_eq!(w.bits, 0xFFFF_FFFF & !(0x7FF << 12));
    w.cmd().clear_bit();
    assert_eq!(w.bits >> 31, 0);
}

#[test]
fn pac_play_timer_control_bits() {
    let mut w = control::W { bits: 0 };
    w.reset().set_bit();
    w.irq_enable().bit(true);
    assert_eq!(w.bits, 0b101);
    w.reset().clear_bit();
    w.play_rate().set_bit();
    assert_eq!(w.bits, 0b110);
}

#[test]
fn pac_sid_transaction_data_is_whole_register() {
    let mut w = transaction_data::W { bits: 0 };
    w.transaction_data().bits(0xBEEF);
    assert_eq!(w.bits, 0xBEEF);
}

#[test]
fn pac_status_readers_and_masks() {
    let r = status::R { bits: (1 << 16) | 0x1234 };
    assert_eq!(r.fifo_level().bits(), 0x1234);
    assert!(r.busy().bit());
    assert!(r.busy().bit_is_set());
    assert!(!r.busy().bit_is_clear());
    let idle = status::R { bits: 0xFFFF };
    assert!(!idle.busy().bit());
    assert_eq!(mask_of(1), 1);
    assert_eq!(mask_of(12), 0xFFF);
    assert_eq!(mask_of(32), 0xFFFF_FFFF);
}
