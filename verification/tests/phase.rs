use solar_system::phase::{
    earth_phase, mars_phase, moon_phase, phase_in_period, EARTH_PERIOD_MS, MARS_PERIOD_MS,
    MOON_PERIOD_MS, PHASE_OFFSET_MS, PHASE_OFFSET_UNITS, TICK_INTERVAL_MS,
};

#[test]
fn constants_hold_the_design_values() {
    assert_eq!(EARTH_PERIOD_MS, 60_000);
    assert_eq!(MOON_PERIOD_MS, 6_000);
    assert_eq!(MARS_PERIOD_MS, 60_000);
    assert_eq!(PHASE_OFFSET_UNITS, 44);
    assert_eq!(PHASE_OFFSET_MS, 44_044);
    assert_eq!(TICK_INTERVAL_MS, 10);
}

#[test]
fn earth_phase_at_zero_is_the_reflected_bias() {
    // (0 - 44044) reduced into [0, 60000) is 15956.
    assert_eq!(earth_phase(0), 15_956);
}

#[test]
fn earth_phase_vanishes_at_the_bias() {
    assert_eq!(earth_phase(44_044), 0);
    assert_eq!(earth_phase(44_045), 1);
}

#[test]
fn earth_phase_is_periodic_with_sixty_seconds() {
    for e in [0u64, 1, 44_043, 44_044, 59_999, 123_456] {
        assert_eq!(earth_phase(e + 60_000), earth_phase(e));
    }
}

#[test]
fn moon_phase_at_zero_is_the_reflected_bias() {
    // (0 - 44044) reduced into [0, 6000) is 3956.
    assert_eq!(moon_phase(0), 3_956);
}

#[test]
fn moon_phase_is_periodic_with_six_seconds() {
    for e in [0u64, 1, 2_044, 44_044, 5_999, 987_654] {
        assert_eq!(moon_phase(e + 6_000), moon_phase(e));
    }
}

#[test]
fn moon_phase_does_not_follow_earths_period() {
    // One Earth period is ten Moon periods, so the Moon's phase repeats
    // there too; half a Moon period must not repeat it.
    assert_eq!(moon_phase(44_044 + 60_000), 0);
    assert_ne!(moon_phase(44_044 + 3_000), moon_phase(44_044));
    assert_eq!(moon_phase(44_044 + 3_000), 3_000);
}

#[test]
fn mars_phase_is_unbiased() {
    assert_eq!(mars_phase(0), 0);
    assert_eq!(mars_phase(12_345), 12_345);
    assert_eq!(mars_phase(59_999), 59_999);
    assert_eq!(mars_phase(60_000), 0);
}

#[test]
fn phase_in_period_reduces_any_offset() {
    // An offset larger than the period acts only through its remainder.
    assert_eq!(phase_in_period(100, 60_000 + 30, 60_000), 70);
    // An elapsed time below the offset wraps backwards.
    assert_eq!(phase_in_period(10, 30, 100), 80);
}
