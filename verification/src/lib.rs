//! Drives a tri-color LED through a continuous animation cycle.
//!
//! The crate holds the two pieces of logic behind the animation: a lossless
//! codec between a packed 32-bit word and the four 8-bit fields of the LED
//! state, and the animation engine, which steps the six-phase color cycle and
//! maps a raw brightness to a perceptually corrected PWM duty value. Hardware
//! bring-up and the control loop that writes the duty values to the PWM
//! channels live outside the library.

pub mod animation;
pub mod led_value;
