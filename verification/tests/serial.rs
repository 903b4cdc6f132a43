use vl::serial::{baud_rate_fields, read_status, write_status};

#[test]
fn baud_rate_115200() {
    // 8 MHz / 115200 = 69 = 4 * 16 + 5
    assert_eq!(baud_rate_fields(115_200), (4, 5));
}

#[test]
fn baud_rate_9600() {
    // 8 MHz / 9600 = 833 = 52 * 16 + 1
    assert_eq!(baud_rate_fields(9_600), (52, 1));
}

#[test]
fn slowest_baud_rate_fills_the_register() {
    // 8 MHz / 123 = 65040 = 4065 * 16 + 0
    assert_eq!(baud_rate_fields(123), (4065, 0));
}

#[test]
fn fields_rebuild_the_divider() {
    for baud in [123u32, 1_200, 2_400, 4_800, 57_600, 115_200, 500_000, 8_000_000] {
        let (mantissa, fraction) = baud_rate_fields(baud);
        assert!(fraction < 16);
        assert_eq!(((mantissa as u32) << 4) | fraction as u32, 8_000_000 / baud);
    }
}

#[test]
fn read_needs_rx_not_empty() {
    assert!(read_status(1).is_ok());
    assert!(read_status(0).is_err());
}

#[test]
fn write_needs_tx_empty() {
    assert!(write_status(1).is_ok());
    assert!(write_status(0).is_err());
}
