use cpu_meter::frame::{encode_frame, encode_frames};

#[test]
fn frame_keeps_upper_bytes_of_value() {
    let bits: u32 = 0x4433_2211;
    assert_eq!(encode_frame(3, bits), [3, 0x22, 0x33, 0x44]);
}

#[test]
fn frame_of_cpu_usage_example() {
    let bits = 42.5f32.to_bits();
    let mut expected = 42.5f32.to_le_bytes();
    expected[0] = 0;
    assert_eq!(encode_frame(0, bits), expected);
    assert_eq!(encode_frame(0, bits), [0x00, 0x00, 0x2A, 0x42]);
}

#[test]
fn frame_overwrites_low_byte_with_slot() {
    let bits = 0.2f32.to_bits();
    let le = 0.2f32.to_le_bytes();
    assert_ne!(le[0], 5);
    let f = encode_frame(5, bits);
    assert_eq!(f[0], 5);
    assert_eq!(&f[1..], &le[1..]);
}

#[test]
fn frames_carry_their_slot() {
    let values: Vec<u32> = vec![0xffff_ffff, 0, 0x1234_5678, 7, 8, 9];
    let frames = encode_frames(&values);
    assert_eq!(frames.len(), 6);
    for (k, f) in frames.iter().enumerate() {
        assert_eq!(f[0] as usize, k);
        assert_eq!(&f[1..], &values[k].to_le_bytes()[1..]);
    }
}

#[test]
fn frames_of_empty_tick() {
    assert!(encode_frames(&Vec::new()).is_empty());
}

#[test]
fn slot_byte_wraps_past_255() {
    let values: Vec<u32> = vec![1; 300];
    let frames = encode_frames(&values);
    assert_eq!(frames[255][0], 255);
    assert_eq!(frames[256][0], 0);
    assert_eq!(frames[299][0], 43);
}
