//! The LED state record and its packed 32-bit representation.

use vstd::prelude::*;

verus! {

/// Stores RGB output values
#[derive(Debug, Clone, Copy, PartialEq, Eq, Structural)]
pub struct LEDValue {
    /// Red brightness
    pub red: u8,
    /// Green brightness
    pub green: u8,
    /// Blue brightness
    pub blue: u8,
    /// Count state
    pub count_state: u8,
}

/// The packed word that holds the four fields: red in bits 0..8, green in
/// bits 8..16, blue in bits 16..24 and the count state in bits 24..32.
pub open spec fn spec_encode(r: u8, g: u8, b: u8, p: u8) -> u32 {
    (r as u32) | ((g as u32) << 8) | ((b as u32) << 16) | ((p as u32) << 24)
}

/// The four fields held by a packed word, each read from its own byte.
pub open spec fn spec_decode(w: u32) -> LEDValue {
    LEDValue {
        red: (w & 0xFF) as u8,
        green: ((w & 0xFF00) >> 8) as u8,
        blue: ((w & 0xFF0000) >> 16) as u8,
        count_state: ((w & 0xFF000000) >> 24) as u8,
    }
}

impl From<u32> for LEDValue {
    /// Unpacks a 32-bit word into the four 8-bit fields.
    fn from(v: u32) -> Self {
        Self {
            red: (v & 0x00000000FF) as u8,
            green: ((v & 0x0000FF00) >> 8) as u8,
            blue: ((v & 0x00FF0000) >> 16) as u8,
            count_state: ((v & 0xFF000000) >> 24) as u8,
        }
    }
}

impl vstd::std_specs::convert::FromSpecImpl<u32> for LEDValue {
    open spec fn obeys_from_spec() -> bool {
        true
    }

    open spec fn from_spec(v: u32) -> Self {
        spec_decode(v)
    }
}

impl From<LEDValue> for u32 {
    /// Packs the four 8-bit fields into one 32-bit word.
    fn from(v: LEDValue) -> Self {
        (v.red as u32) | ((v.green as u32) << 8) | ((v.blue as u32) << 16)
            | ((v.count_state as u32) << 24)
    }
}

impl vstd::std_specs::convert::FromSpecImpl<LEDValue> for u32 {
    open spec fn obeys_from_spec() -> bool {
        true
    }

    open spec fn from_spec(v: LEDValue) -> Self {
        spec_encode(v.red, v.green, v.blue, v.count_state)
    }
}

/// Law: decoding an encoded tuple gives back exactly that tuple, for every
/// choice of the four 8-bit fields.
pub proof fn lemma_decode_encode(r: u8, g: u8, b: u8, p: u8)
    ensures
        spec_decode(spec_encode(r, g, b, p)) == (LEDValue {
            red: r,
            green: g,
            blue: b,
            count_state: p,
        }),
{
    assert(spec_decode(spec_encode(r, g, b, p)).red == r) by (bit_vector);
    assert(spec_decode(spec_encode(r, g, b, p)).green == g) by (bit_vector);
    assert(spec_decode(spec_encode(r, g, b, p)).blue == b) by (bit_vector);
    assert(spec_decode(spec_encode(r, g, b, p)).count_state == p) by (bit_vector);
}

/// Law: encoding the four fields decoded from a word gives back exactly that
/// word, for every 32-bit word.
pub proof fn lemma_encode_decode(w: u32)
    ensures
        spec_encode(
            spec_decode(w).red,
            spec_decode(w).green,
            spec_decode(w).blue,
            spec_decode(w).count_state,
        ) == w,
{
    assert(spec_encode(
        spec_decode(w).red,
        spec_decode(w).green,
        spec_decode(w).blue,
        spec_decode(w).count_state,
    ) == w) by (bit_vector);
}

} // verus!
