//! The animation engine: the six-phase color cycle and the duty curve.

use vstd::prelude::*;

use crate::led_value::LEDValue;

verus! {

/// The duty value for a brightness `b` under a maximum duty `m`: an
/// inverse-quadratic perceptual curve, `(m * (2^24 - 256 * b^2)) / 2^24`,
/// computed over the mathematical integers.
pub open spec fn spec_duty(b: int, m: int) -> int {
    (m * (0x1000000 - 256 * (b * b))) / 0x1000000
}

/// Get the duty cycle from the color's brightness
pub fn get_duty(brightness: u8, max_duty: u16) -> (r: u16)
    ensures
        r == spec_duty(brightness as int, max_duty as int),
        r <= max_duty,
{
    let b: i64 = brightness as i64;
    proof {
        assert(b * b <= 65025) by (nonlinear_arith)
            requires
                0 <= b <= 255,
        ;
        assert(b * b >= 0) by (nonlinear_arith);
    }
    let b2: i64 = b * b;
    proof {
        assert(b2 << 8 == 256 * b2) by (bit_vector)
            requires
                0 <= b2 <= 65025,
        ;
        assert(1i64 << 24 == 0x1000000) by (bit_vector);
        let m: int = max_duty as int;
        let inner: int = 0x1000000 - 256 * (b2 as int);
        assert(m * inner <= 65535 * 0x1000000 && m * inner >= 0 && m * inner <= m * 0x1000000)
            by (nonlinear_arith)
            requires
                0 <= m <= 65535,
                0 <= inner <= 0x1000000,
        ;
    }
    let scaled: i64 = (max_duty as i64) * (-(b2 << 8) + (1 << 24));
    proof {
        assert(scaled >> 24 == scaled / 0x1000000) by (bit_vector)
            requires
                0 <= scaled <= 0x10000000000,
        ;
        vstd::arithmetic::div_mod::lemma_div_is_ordered(
            scaled as int,
            (max_duty as int) * 0x1000000,
            0x1000000,
        );
        vstd::arithmetic::div_mod::lemma_div_multiples_vanish(max_duty as int, 0x1000000);
        vstd::arithmetic::div_mod::lemma_div_pos_is_pos(scaled as int, 0x1000000);
    }
    let out: i64 = scaled >> 24;

    // Clamp output
    if out > max_duty as i64 {
        max_duty
    } else if out < 0 {
        0
    } else {
        out as u16
    }
}

/// The active channel of the current phase can take its step without being
/// pushed past 255 or below 0: the one demand the advance step makes.
pub open spec fn can_advance(s: LEDValue) -> bool {
    if s.count_state == 1 {
        s.red >= 1
    } else if s.count_state == 2 {
        s.blue <= 254
    } else if s.count_state == 3 {
        s.blue >= 1
    } else if s.count_state == 4 {
        s.green <= 254
    } else if s.count_state == 5 {
        s.green >= 1
    } else {
        s.red <= 254
    }
}

/// One step of the six-phase cycle: the active channel moves by one, and the
/// phase advances in the same step in which the channel reaches its boundary.
/// A count state outside 0..=5 acts as phase 0 and ramps red up.
pub open spec fn spec_advance(s: LEDValue) -> LEDValue {
    if s.count_state == 1 {
        let red = (s.red - 1) as u8;
        LEDValue {
            red,
            green: s.green,
            blue: s.blue,
            count_state: if red == 0 {
                2
            } else {
                s.count_state
            },
        }
    } else if s.count_state == 2 {
        let blue = (s.blue + 1) as u8;
        LEDValue {
            red: s.red,
            green: s.green,
            blue,
            count_state: if blue == 255 {
                3
            } else {
                s.count_state
            },
        }
    } else if s.count_state == 3 {
        let blue = (s.blue - 1) as u8;
        LEDValue {
            red: s.red,
            green: s.green,
            blue,
            count_state: if blue == 0 {
                4
            } else {
                s.count_state
            },
        }
    } else if s.count_state == 4 {
        let green = (s.green + 1) as u8;
        LEDValue {
            red: s.red,
            green,
            blue: s.blue,
            count_state: if green == 255 {
                5
            } else {
                s.count_state
            },
        }
    } else if s.count_state == 5 {
        let green = (s.green - 1) as u8;
        LEDValue {
            red: s.red,
            green,
            blue: s.blue,
            count_state: if green == 0 {
                0
            } else {
                s.count_state
            },
        }
    } else {
        let red = (s.red + 1) as u8;
        LEDValue {
            red,
            green: s.green,
            blue: s.blue,
            count_state: if red == 255 {
                1
            } else {
                s.count_state
            },
        }
    }
}

/// Tells whether the next advance step is admissible, so that an unverified
/// caller can test `update_led_state`'s precondition before calling it.
pub fn can_update_led_state(led_value: &LEDValue) -> (r: bool)
    ensures
        r == can_advance(*led_value),
{
    match led_value.count_state {
        1 => led_value.red >= 1,
        2 => led_value.blue <= 254,
        3 => led_value.blue >= 1,
        4 => led_value.green <= 254,
        5 => led_value.green >= 1,
        _ => led_value.red <= 254,
    }
}

/// Update the LED pattern
/// This runs through each of the color channels from dim to bright to back to dim
pub fn update_led_state(led_value: &mut LEDValue)
    requires
        can_advance(*old(led_value)),
    ensures
        *final(led_value) == spec_advance(*old(led_value)),
{
    match led_value.count_state {
        1 => {
            led_value.red -= 1;
            if led_value.red == 0 {
                led_value.count_state = 2
            }
        },
        2 => {
            led_value.blue += 1;
            if led_value.blue == 255 {
                led_value.count_state = 3
            }
        },
        3 => {
            led_value.blue -= 1;
            if led_value.blue == 0 {
                led_value.count_state = 4
            }
        },
        4 => {
            led_value.green += 1;
            if led_value.green == 255 {
                led_value.count_state = 5
            }
        },
        5 => {
            led_value.green -= 1;
            if led_value.green == 0 {
                led_value.count_state = 0
            }
        },
        _ => {
            led_value.red += 1;
            if led_value.red == 255 {
                led_value.count_state = 1
            }
        },
    }
}

/// Law: for every brightness and every positive maximum duty, the duty value
/// lies between 0 and the maximum duty.
pub proof fn lemma_duty_clamped(b: int, m: int)
    requires
        0 <= b <= 255,
        1 <= m <= 65535,
    ensures
        0 <= spec_duty(b, m) <= m,
{
    let inner: int = 0x1000000 - 256 * (b * b);
    assert(0 <= 256 * (b * b) <= 16646400) by (nonlinear_arith)
        requires
            0 <= b <= 255,
    ;
    assert(0 <= m * inner <= m * 0x1000000) by (nonlinear_arith)
        requires
            0 <= m,
            0 <= inner <= 0x1000000,
    ;
    vstd::arithmetic::div_mod::lemma_div_is_ordered(m * inner, m * 0x1000000, 0x1000000);
    vstd::arithmetic::div_mod::lemma_div_multiples_vanish(m, 0x1000000);
    vstd::arithmetic::div_mod::lemma_div_pos_is_pos(m * inner, 0x1000000);
}

/// Law: for a fixed maximum duty, the duty value is non-increasing as the
/// brightness increases.
pub proof fn lemma_duty_monotonic(b1: int, b2: int, m: int)
    requires
        0 <= b1 <= b2 <= 255,
        0 <= m <= 65535,
    ensures
        spec_duty(b2, m) <= spec_duty(b1, m),
{
    let inner1: int = 0x1000000 - 256 * (b1 * b1);
    let inner2: int = 0x1000000 - 256 * (b2 * b2);
    assert(m * inner2 <= m * inner1) by (nonlinear_arith)
        requires
            0 <= m,
            0 <= b1 <= b2,
            inner1 == 0x1000000 - 256 * (b1 * b1),
            inner2 == 0x1000000 - 256 * (b2 * b2),
    ;
    vstd::arithmetic::div_mod::lemma_div_is_ordered(m * inner2, m * inner1, 0x1000000);
}

/// Law: brightness 0 maps to the full maximum duty, the dimmest output under
/// the inverted polarity of the curve.
pub proof fn lemma_duty_zero_brightness(m: int)
    requires
        0 <= m <= 65535,
    ensures
        spec_duty(0, m) == m,
{
    vstd::arithmetic::div_mod::lemma_div_multiples_vanish(m, 0x1000000);
}

/// Law: brightness 255 maps to a duty within rounding distance of 0: no more
/// than a 1/128 fraction of the maximum duty.
pub proof fn lemma_duty_full_brightness(m: int)
    requires
        0 <= m <= 65535,
    ensures
        0 <= spec_duty(255, m) <= m / 128,
{
    vstd::arithmetic::div_mod::lemma_div_is_ordered(m * 130816, m * 131072, 0x1000000);
    vstd::arithmetic::div_mod::lemma_div_denominator(m * 131072, 131072, 128);
    vstd::arithmetic::div_mod::lemma_div_multiples_vanish(m, 131072);
    vstd::arithmetic::div_mod::lemma_div_pos_is_pos(m * 130816, 0x1000000);
}

/// The state the animation starts from: all channels dark, phase 0.
pub open spec fn initial_state() -> LEDValue {
    LEDValue { red: 0, green: 0, blue: 0, count_state: 0 }
}

/// The states the animation can reach from the initial state: in each phase
/// at most one channel is away from 0, and it sits where that phase's ramp
/// can still take its next step without wrapping.
pub open spec fn on_cycle(s: LEDValue) -> bool {
    if s.count_state == 0 {
        s.green == 0 && s.blue == 0 && s.red <= 254
    } else if s.count_state == 1 {
        s.green == 0 && s.blue == 0 && s.red >= 1
    } else if s.count_state == 2 {
        s.red == 0 && s.green == 0 && s.blue <= 254
    } else if s.count_state == 3 {
        s.red == 0 && s.green == 0 && s.blue >= 1
    } else if s.count_state == 4 {
        s.red == 0 && s.blue == 0 && s.green <= 254
    } else if s.count_state == 5 {
        s.red == 0 && s.blue == 0 && s.green >= 1
    } else {
        false
    }
}

/// Law: every reachable state admits the next step without wraparound.
pub proof fn lemma_on_cycle_can_advance(s: LEDValue)
    requires
        on_cycle(s),
    ensures
        can_advance(s),
{
}

/// Law: the advance step keeps the state on the six-segment cycle path, so
/// the whole animation stays on it forever.
pub proof fn lemma_advance_preserves_cycle(s: LEDValue)
    requires
        on_cycle(s),
    ensures
        on_cycle(spec_advance(s)),
{
}

/// The state after `n` advance steps from `s`.
pub open spec fn spec_advance_n(s: LEDValue, n: nat) -> LEDValue
    decreases n,
{
    if n == 0 {
        s
    } else {
        spec_advance(spec_advance_n(s, (n - 1) as nat))
    }
}

/// The state the animation holds `k` steps after the initial state, written
/// out segment by segment over one full cycle of 255 * 6 steps.
pub open spec fn cycle_state(k: nat) -> LEDValue {
    if k <= 254 {
        LEDValue { red: k as u8, green: 0, blue: 0, count_state: 0 }
    } else if k <= 509 {
        LEDValue { red: (510 - k) as u8, green: 0, blue: 0, count_state: 1 }
    } else if k <= 764 {
        LEDValue { red: 0, green: 0, blue: (k - 510) as u8, count_state: 2 }
    } else if k <= 1019 {
        LEDValue { red: 0, green: 0, blue: (1020 - k) as u8, count_state: 3 }
    } else if k <= 1274 {
        LEDValue { red: 0, green: (k - 1020) as u8, blue: 0, count_state: 4 }
    } else if k <= 1529 {
        LEDValue { red: 0, green: (1530 - k) as u8, blue: 0, count_state: 5 }
    } else {
        LEDValue { red: 0, green: 0, blue: 0, count_state: 0 }
    }
}

/// Law: step by step, the animation walks exactly the six-segment path.
pub proof fn lemma_cycle_state(k: nat)
    requires
        k <= 1530,
    ensures
        spec_advance_n(initial_state(), k) == cycle_state(k),
    decreases k,
{
    if k > 0 {
        lemma_cycle_state((k - 1) as nat);
        assert(spec_advance(cycle_state((k - 1) as nat)) == cycle_state(k));
    }
}

/// Law: starting from all channels dark in phase 0, exactly 255 * 6 advance
/// steps return the state to that same starting tuple, and every state along
/// the way lies on the cycle path, so no channel is ever pushed past 255 or
/// below 0.
pub proof fn lemma_full_cycle()
    ensures
        spec_advance_n(initial_state(), 1530) == initial_state(),
        forall|k: nat| k <= 1530 ==> on_cycle(spec_advance_n(initial_state(), k)),
{
    lemma_cycle_state(1530);
    assert forall|k: nat| k <= 1530 implies on_cycle(spec_advance_n(initial_state(), k)) by {
        lemma_cycle_state(k);
    }
}

/// Law: the step on which red reaches 255 in phase 0 moves to phase 1 in
/// that same step, with red left at 255: the boundary is never overshot, so
/// red is never seen wrapping around to 0.
pub proof fn lemma_no_wraparound(s: LEDValue)
    requires
        s.count_state == 0,
        s.red == 254,
    ensures
        spec_advance(s) == (LEDValue { red: 255, green: s.green, blue: s.blue, count_state: 1 }),
        spec_advance(s).red != 0,
{
}

/// Law: the state obtained by decoding the word 0, the one the control loop
/// starts from, is the all-dark phase-0 state, and it lies on the cycle path.
pub proof fn lemma_initial_state_from_zero()
    ensures
        crate::led_value::spec_decode(0) == initial_state(),
        on_cycle(initial_state()),
{
    assert(crate::led_value::spec_decode(0).red == 0) by (bit_vector);
    assert(crate::led_value::spec_decode(0).green == 0) by (bit_vector);
    assert(crate::led_value::spec_decode(0).blue == 0) by (bit_vector);
    assert(crate::led_value::spec_decode(0).count_state == 0) by (bit_vector);
}

} // verus!
