use led_cycle::led_value::LEDValue;

const SAMPLE_BYTES: [u8; 8] = [0, 1, 2, 127, 128, 200, 254, 255];

const SAMPLE_WORDS: [u32; 10] = [
    0,
    1,
    0xFF,
    0x100,
    0xFF00,
    0x00FF_0000,
    0xFF00_0000,
    0x1234_5678,
    0xDEAD_BEEF,
    0xFFFF_FFFF,
];

#[test]
fn decode_zero_is_all_dark_phase_zero() {
    let v = LEDValue::from(0u32);
    assert_eq!(v, LEDValue { red: 0, green: 0, blue: 0, count_state: 0 });
}

#[test]
fn decode_picks_each_byte() {
    let v = LEDValue::from(0x0403_0201u32);
    assert_eq!(v.red, 0x01);
    assert_eq!(v.green, 0x02);
    assert_eq!(v.blue, 0x03);
    assert_eq!(v.count_state, 0x04);
}

#[test]
fn encode_places_each_byte() {
    let v = LEDValue { red: 0x01, green: 0x02, blue: 0x03, count_state: 0x04 };
    let w: u32 = u32::from(v);
    assert_eq!(w, 0x0403_0201);
}

#[test]
fn decode_of_encode_round_trips() {
    for &r in SAMPLE_BYTES.iter() {
        for &g in SAMPLE_BYTES.iter() {
            for &b in SAMPLE_BYTES.iter() {
                for &p in SAMPLE_BYTES.iter() {
                    let v = LEDValue { red: r, green: g, blue: b, count_state: p };
                    let w: u32 = u32::from(v);
                    assert_eq!(LEDValue::from(w), v);
                }
            }
        }
    }
}

#[test]
fn encode_of_decode_round_trips() {
    for &w in SAMPLE_WORDS.iter() {
        let v = LEDValue::from(w);
        assert_eq!(u32::from(v), w);
    }
}
