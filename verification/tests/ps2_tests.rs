use kfs_core::ps2::{controller_busy, data_available, KBD_CMD, KBD_DATA, KBD_STAT, STAT_IBF, STAT_OBF};

#[test]
fn controller_ports_and_flags_have_documented_values() {
    assert_eq!(KBD_DATA, 0x60);
    assert_eq!(KBD_STAT, 0x64);
    assert_eq!(KBD_CMD, 0x64);
    assert_eq!(STAT_OBF, 0x01);
    assert_eq!(STAT_IBF, 0x02);
}

#[test]
fn status_bit_zero_signals_data() {
    assert!(data_available(0x01));
    assert!(data_available(0xFF));
    assert!(!data_available(0x00));
    assert!(!data_available(0xFE));
}

#[test]
fn status_bit_one_signals_busy() {
    assert!(controller_busy(0x02));
    assert!(controller_busy(0x03));
    assert!(!controller_busy(0x01));
    assert!(!controller_busy(0xFD & !0x02));
}
