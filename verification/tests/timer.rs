use vl::timer::{init_values, try_nb, wait_status, Async, Error};

#[test]
fn one_hertz_needs_a_prescaler() {
    // 8 MHz / 1 Hz = 8_000_000 cycles: prescaler 122, and 8_000_000 / 123 = 65040.65 rounds
    // to 65041 prescaled ticks, so the auto-reload value is 65040
    assert_eq!(init_values(1), (122, 65040));
}

#[test]
fn kilohertz_fits_without_prescaler() {
    // 8000 cycles per period: the counter runs from 0 to 7999
    assert_eq!(init_values(1_000), (0, 7_999));
}

#[test]
fn timer_clock_frequency_gives_the_shortest_period() {
    // a one-cycle period cannot be counted: the auto-reload value stays at 1
    assert_eq!(init_values(8_000_000), (0, 1));
    // half the timer clock: two cycles, counted exactly
    assert_eq!(init_values(4_000_000), (0, 1));
}

#[test]
fn largest_period_without_prescaler() {
    // 8 MHz / 123 Hz = 65040 cycles, still within the 16-bit counter
    assert_eq!(init_values(123), (0, 65_039));
    // 8 MHz / 122 Hz = 65573 cycles: the prescaler must divide by two, and
    // 65573 / 2 = 32786.5 rounds to 32787 prescaled ticks
    assert_eq!(init_values(122), (1, 32_786));
}

#[test]
fn update_period_is_nearest_to_the_ratio() {
    for f in [1u32, 2, 3, 7, 50, 121, 122, 123, 999, 1_000, 65_536, 1_000_000, 2_000_000, 4_000_000, 7_999_999] {
        let (psc, arr) = init_values(f);
        let ratio = 8_000_000u64 / f as u64;
        let p = psc as u64 + 1;
        let period = p * (arr as u64 + 1);
        assert!(arr >= 1);
        if ratio >= 2 {
            // within half a prescaled tick of the requested period
            assert!(2 * period <= 2 * ratio + p);
            assert!(2 * ratio < 2 * period + p + (p % 2));
            if ratio % p == 0 {
                assert_eq!(period, ratio);
            }
        } else {
            // a one-cycle period gets the shortest one the counter runs
            assert_eq!(period, 2);
        }
    }
}

#[test]
fn exact_periods_when_the_prescaler_divides() {
    // 1 kHz (8000 cycles, prescaler 0), 100 Hz (80000 cycles, prescaler 1),
    // 40 Hz (200000 cycles, prescaler 3)
    for f in [1_000u32, 100, 40] {
        let (psc, arr) = init_values(f);
        assert_eq!((psc as u64 + 1) * (arr as u64 + 1), 8_000_000 / f as u64);
    }
    assert_eq!(init_values(100), (1, 39_999));
    assert_eq!(init_values(40), (3, 49_999));
}

#[test]
fn wait_blocks_until_update_flag() {
    assert!(matches!(wait_status(0), (Err(Error::WouldBlock), false)));
    assert!(matches!(wait_status(1), (Ok(()), true)));
}

#[test]
fn one_ok_per_update_event() {
    let mut uif = 1u8;
    let (first, clear) = wait_status(uif);
    assert!(first.is_ok());
    if clear {
        uif = 0;
    }
    assert!(matches!(wait_status(uif), (Err(Error::WouldBlock), false)));
}

#[test]
fn try_nb_maps_would_block_to_not_ready() {
    assert!(matches!(try_nb::<u8>(Ok(3)), Ok(Async::Ready(3))));
    assert!(matches!(try_nb::<u8>(Err(Error::WouldBlock)), Ok(Async::NotReady)));
    assert!(matches!(try_nb::<u8>(Err(Error::_Extensible)), Err(Error::_Extensible)));
}
