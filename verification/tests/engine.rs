use led_cycle::animation::{get_duty, update_led_state};
use led_cycle::led_value::LEDValue;

const SAMPLE_MAX_DUTIES: [u16; 5] = [1, 2, 128, 1000, 65535];

/// The state the animation should hold `k` steps after the all-dark phase-0
/// start, written out segment by segment over one full cycle.
fn expected_state(k: u32) -> LEDValue {
    if k <= 254 {
        LEDValue { red: k as u8, green: 0, blue: 0, count_state: 0 }
    } else if k <= 509 {
        LEDValue { red: (510 - k) as u8, green: 0, blue: 0, count_state: 1 }
    } else if k <= 764 {
        LEDValue { red: 0, green: 0, blue: (k - 510) as u8, count_state: 2 }
    } else if k <= 1019 {
        LEDValue { red: 0, green: 0, blue: (1020 - k) as u8, count_state: 3 }
    } else if k <= 1274 {
        LEDValue { red: 0, green: (k - 1020) as u8, blue: 0, count_state: 4 }
    } else if k <= 1529 {
        LEDValue { red: 0, green: (1530 - k) as u8, blue: 0, count_state: 5 }
    } else {
        LEDValue { red: 0, green: 0, blue: 0, count_state: 0 }
    }
}

#[test]
fn duty_exact_values() {
    assert_eq!(get_duty(0, 1000), 1000);
    assert_eq!(get_duty(128, 1000), 750);
    assert_eq!(get_duty(255, 1000), 7);
    assert_eq!(get_duty(16, 4096), 4080);
    assert_eq!(get_duty(0, 65535), 65535);
    assert_eq!(get_duty(255, 65535), 510);
    assert_eq!(get_duty(255, 128), 0);
}

#[test]
fn duty_stays_clamped() {
    for &m in SAMPLE_MAX_DUTIES.iter() {
        for b in 0u16..=255 {
            let d = get_duty(b as u8, m);
            assert!(d <= m);
        }
    }
}

#[test]
fn duty_is_non_increasing_in_brightness() {
    for &m in SAMPLE_MAX_DUTIES.iter() {
        for b in 1u16..=255 {
            assert!(get_duty(b as u8, m) <= get_duty((b - 1) as u8, m));
        }
    }
}

#[test]
fn duty_boundaries() {
    for &m in SAMPLE_MAX_DUTIES.iter() {
        assert_eq!(get_duty(0, m), m);
        // Full brightness lands within rounding distance of 0.
        assert!(get_duty(255, m) <= m / 128);
    }
}

#[test]
fn advance_scenario_first_segment() {
    let mut state = LEDValue::from(0u32);
    update_led_state(&mut state);
    assert_eq!(state, LEDValue { red: 1, green: 0, blue: 0, count_state: 0 });
    for _ in 1..255 {
        update_led_state(&mut state);
    }
    assert_eq!(state, LEDValue { red: 255, green: 0, blue: 0, count_state: 1 });
    update_led_state(&mut state);
    assert_eq!(state, LEDValue { red: 254, green: 0, blue: 0, count_state: 1 });
}

#[test]
fn boundary_step_reaches_phase_one_without_wraparound() {
    let mut state = LEDValue { red: 254, green: 0, blue: 0, count_state: 0 };
    update_led_state(&mut state);
    assert_eq!(state, LEDValue { red: 255, green: 0, blue: 0, count_state: 1 });
    assert_ne!(state.red, 0);
}

#[test]
fn full_cycle_returns_to_start() {
    let start = LEDValue::from(0u32);
    let mut state = start;
    for k in 1u32..=1530 {
        let before = state;
        update_led_state(&mut state);
        // Exactly one channel moved, and by exactly one step.
        let moved = [
            (state.red, before.red),
            (state.green, before.green),
            (state.blue, before.blue),
        ]
        .iter()
        .filter(|&&(after, b4)| after != b4)
        .count();
        assert_eq!(moved, 1);
        assert!(
            state.red.abs_diff(before.red) <= 1
                && state.green.abs_diff(before.green) <= 1
                && state.blue.abs_diff(before.blue) <= 1
        );
        assert_eq!(state, expected_state(k));
    }
    assert_eq!(state, start);
}

#[test]
fn out_of_range_phase_acts_as_phase_zero() {
    let mut state = LEDValue { red: 10, green: 20, blue: 30, count_state: 9 };
    update_led_state(&mut state);
    assert_eq!(state, LEDValue { red: 11, green: 20, blue: 30, count_state: 9 });

    let mut near_top = LEDValue { red: 254, green: 7, blue: 7, count_state: 200 };
    update_led_state(&mut near_top);
    assert_eq!(near_top, LEDValue { red: 255, green: 7, blue: 7, count_state: 1 });
}
