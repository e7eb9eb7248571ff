use systick_delay::ticks::{reload_for, MAX_DELAY_MS, MAX_RELOAD, TICKS_PER_MS};

#[test]
fn reload_for_long_wait_is_twelve_million_ticks() {
    assert_eq!(reload_for(1000), Some(12_000_000));
}

#[test]
fn reload_for_short_wait_is_one_point_two_million_ticks() {
    assert_eq!(reload_for(100), Some(1_200_000));
}

#[test]
fn reload_for_zero_is_zero() {
    assert_eq!(reload_for(0), Some(0));
}

#[test]
fn reload_for_one_ms_is_ticks_per_ms() {
    assert_eq!(reload_for(1), Some(TICKS_PER_MS));
}

#[test]
fn reload_for_longest_delay_fits_register() {
    assert_eq!(reload_for(MAX_DELAY_MS), Some(16_776_000));
    assert!(16_776_000 <= MAX_RELOAD);
}

#[test]
fn reload_for_rejects_delay_past_register() {
    assert_eq!(reload_for(MAX_DELAY_MS + 1), None);
    assert_eq!(reload_for(357_913), None);
    assert_eq!(reload_for(u32::MAX), None);
}
