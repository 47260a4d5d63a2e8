use tiliqua_fw::mbsid::params::patch_detail_bytes;
use tiliqua_fw::mbsid::params::{lead_params, read_value, write_ops, Enc, ParamDesc};

fn body_from(pairs: &[(u16, u8)]) -> impl Fn(u16) -> u8 + '_ {
    move |a| pairs.iter().find(|(pa, _)| *pa == a).map(|(_, v)| *v).unwrap_or(0)
}

#[test]
fn table_addresses_inside_lead_regions() {
    let table = lead_params();
    for d in table.iter() {
        for a in core::iter::once(d.addr).chain(d.mirror) {
            let hi = if matches!(d.enc, Enc::Wide12 | Enc::Cutoff11) { a + 1 } else { a };
            assert!(hi < 512, "{}: addr out of patch", d.label);
            assert!((0x50..0xDE).contains(&a), "{}: {a:#x} outside Lead regions", d.label);
        }
        assert!(d.step >= 1 && d.max >= 1, "{}", d.label);
    }
    assert_eq!(table.len(), 32);
}

#[test]
fn osc_rows_mirror_right_sid_voice() {
    let table = lead_params();
    for d in table.iter().filter(|d| (0x60..0xC0).contains(&d.addr)) {
        assert_eq!(d.mirror, Some(d.addr + 0x30), "{}", d.label);
    }
    for d in table.iter().filter(|d| (0x54..0x60).contains(&d.addr)) {
        assert_eq!(d.mirror, Some(d.addr + 6), "{}", d.label);
    }
}

#[test]
fn byte_nibble_read_write_roundtrip() {
    let d = ParamDesc {
        label: "T",
        addr: 0x62,
        mirror: None,
        enc: Enc::Byte { shift: 4, mask: 0x0F },
        max: 15,
        step: 1,
    };
    assert_eq!(read_value(&d, body_from(&[(0x62, 0xA5)])), 0xA);
    let ops = write_ops(&d, 3, body_from(&[(0x62, 0xA5)]));
    assert_eq!(ops.as_slice(), &[(0x62, 0x35)]);
}

#[test]
fn wide12_write_preserves_high_nibble_and_mirrors() {
    let d = ParamDesc { label: "PW1", addr: 0x64, mirror: Some(0x94), enc: Enc::Wide12, max: 4095, step: 16 };
    let b = body_from(&[(0x64, 0x00), (0x65, 0xF0), (0x94, 0x00), (0x95, 0xF0)]);
    assert_eq!(read_value(&d, &b), 0x000);
    let ops = write_ops(&d, 0xABC, &b);
    assert_eq!(ops.as_slice(), &[(0x64, 0xBC), (0x65, 0xFA), (0x94, 0xBC), (0x95, 0xFA)]);
}

#[test]
fn cutoff11_preserves_fip_bit() {
    let d = ParamDesc { label: "Cut", addr: 0x55, mirror: Some(0x5B), enc: Enc::Cutoff11, max: 2047, step: 16 };
    let b = body_from(&[(0x55, 0x80 | 0x7F), (0x56, 0x0F), (0x5B, 0x80), (0x5C, 0x00)]);
    assert_eq!(read_value(&d, &b), 0x7FF);
    let ops = write_ops(&d, 0x155, &b);
    assert_eq!(ops.as_slice(), &[(0x55, 0x80 | 0x55), (0x56, 0x02), (0x5B, 0x80 | 0x55), (0x5C, 0x02)]);
}

#[test]
fn clamp_to_max() {
    let table = lead_params();
    let d = &table[0];
    let ops = write_ops(d, 999, body_from(&[]));
    assert!(ops.iter().all(|(_, v)| (*v & 0x0F) <= 15));
}

#[test]
fn params_edit_reads_back_and_keeps_other_bits() {
    // Law: after applying write_ops, read_value gives the clamped value and
    // bits outside the field survive.
    let table = lead_params();
    for d in table.iter() {
        let mut mem = [0u8; 512];
        for (i, m) in mem.iter_mut().enumerate() {
            *m = (i as u8).wrapping_mul(89).wrapping_add(17);
        }
        let before = mem;
        let target = d.max / 2 + 1;
        let ops = write_ops(d, target, |a: u16| mem[a as usize]);
        for &(a, v) in ops.iter() {
            mem[a as usize] = v;
        }
        assert_eq!(read_value(d, |a: u16| mem[a as usize]), target, "{}", d.label);
        // Addresses that were not written are unchanged.
        for i in 0..512u16 {
            if !ops.iter().any(|&(a, _)| a == i) {
                assert_eq!(mem[i as usize], before[i as usize]);
            }
        }
    }
}

#[test]
fn params_volume_is_low_nibble_of_first_global() {
    let table = lead_params();
    let d = &table[0];
    assert_eq!(d.enc, Enc::Byte { shift: 0, mask: 0x0F });
    assert_eq!(read_value(d, body_from(&[(d.addr, 0xC7)])), 7);
}

#[test]
fn patch_detail_bytes_reads_engine_and_voice_flags() {
    let mut p = [0u8; 512];
    p[0x10] = 2;
    p[0x50] = 0x09;
    assert_eq!(patch_detail_bytes(&p), (2, 0x09));
}

#[test]
fn read_value_ignores_the_mirror_address() {
    // A mirror at the top of the address space is never read.
    let d = ParamDesc { label: "PW", addr: 0x64, mirror: Some(0xFFFF), enc: Enc::Wide12, max: 4095, step: 16 };
    let b = body_from(&[(0x64, 0x34), (0x65, 0xF2)]);
    assert_eq!(read_value(&d, &b), 0x234);
}
