use compass::sample::{decode_axis, decode_sample, seed_from_sample, Sample};

#[test]
fn decode_documented_example() {
    let buf = vec![0x01u8, 0x00, 0x00, 0x00, 0xFF, 0xFF];
    let s = decode_sample(&buf);
    assert_eq!(s.x, 256);
    assert_eq!(s.z, 0);
    assert_eq!(s.y, -1);
}

#[test]
fn decode_axis_order_is_x_z_y() {
    // Z precedes Y in the sensor's register layout.
    let buf = vec![0x00u8, 0x01, 0x00, 0x02, 0x00, 0x03];
    let s = decode_sample(&buf);
    assert_eq!(s.x, 1);
    assert_eq!(s.z, 2);
    assert_eq!(s.y, 3);
}

#[test]
fn seed_packs_axis_bit_patterns() {
    assert_eq!(seed_from_sample(&Sample { x: 100, y: 0, z: 0 }), 100);
    assert_eq!(
        seed_from_sample(&Sample { x: -1, y: 2, z: -3 }),
        0xFFFF + 2 * 0x1_0000 + 0xFFFD * 0x1_0000_0000
    );
}

#[test]
fn decode_axis_extremes() {
    assert_eq!(decode_axis(0x80, 0x00), -32768);
    assert_eq!(decode_axis(0x7F, 0xFF), 32767);
    assert_eq!(decode_axis(0x00, 0x00), 0);
    assert_eq!(decode_axis(0xFF, 0xFF), -1);
}
