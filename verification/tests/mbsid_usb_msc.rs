use tiliqua_fw::mbsid::usb_msc::sense_fields;
use tiliqua_fw::mbsid::usb_msc::{MscDiag, MscError};

#[test]
fn msc_first_write_failure_sticks_until_begin() {
    let mut d = MscDiag::default();
    d.record_failure((1, 10), (1, 2, 3, 4, 5));
    d.record_failure((2, 20), (6, 7, 8, 9, 10));
    assert_eq!(d.wr_csw_first, (1, 10));
    assert_eq!(d.wr_reject_first, (1, 2, 3, 4, 5));
    assert_eq!(d.wr_csw, (2, 20));
    assert_eq!(d.wr_reject, (6, 7, 8, 9, 10));
    assert!(d.wr_first_set);
    d.begin();
    assert!(!d.wr_first_set);
    assert_eq!(d.wr_csw_first, (0, 0));
    // The last failure survives begin; only the first-failure capture resets.
    assert_eq!(d.wr_csw, (2, 20));
    d.record_failure((3, 30), (0, 0, 0, 0, 1));
    assert_eq!(d.wr_csw_first, (3, 30));
}

#[test]
fn msc_first_read_failure_sticks_and_begin_clears_reads() {
    let mut d = MscDiag::default();
    d.rd = 5;
    d.record_rd_failure((1, 2, 3, 4, 5, 6, 7, 8), 0xAB);
    d.record_rd_failure((2, 0, 9, 9, 0, 0, 0, 0), 0xCD);
    assert_eq!(d.rd_fail_first, (1, 2, 3, 4, 5, 6, 7, 8));
    assert_eq!(d.rd_path_first, 0xAB);
    assert_eq!(d.rd_fail, (2, 0, 9, 9, 0, 0, 0, 0));
    assert_eq!(d.rd_path, 0xCD);
    d.begin();
    assert_eq!(d.rd_fail, (0, 0, 0, 0, 0, 0, 0, 0));
    assert_eq!(d.rd_path, 0);
    assert!(!d.rd_first_set);
    assert_eq!(d.rd, 5);
    assert_ne!(MscError::NotReady, MscError::WriteError);
}

#[test]
fn sense_fields_split_key_code_and_qualifier() {
    // WRITE PROTECTED: key 0x7, ASC 0x27, ASCQ 0x00.
    assert_eq!(sense_fields(0x07_27_00), (0x7, 0x27, 0x00));
    assert_eq!(sense_fields(0x02_04_01), (0x2, 0x04, 0x01));
    // Bits above the key are not part of it.
    assert_eq!(sense_fields(0xFF_F3_AB_CD), (0x3, 0xAB, 0xCD));
}
