use matrix_animations::orientation::{classify, decode_sample, signed_le};
use matrix_animations::{Orientation, Tilt};

fn tilt(g: f32) -> Tilt {
    if g > 0.9 {
        Tilt::High
    } else if g < -0.9 {
        Tilt::Low
    } else {
        Tilt::Level
    }
}

#[test]
fn x_up_is_taken_and_kept_within_the_deadband() {
    let mode = classify(Orientation::YDown, tilt(0.95), tilt(0.0));
    assert_eq!(mode, Orientation::XUp);
    let mode = classify(mode, tilt(0.0), tilt(0.0));
    assert_eq!(mode, Orientation::XUp);
}

#[test]
fn each_threshold_selects_its_orientation() {
    for previous in [Orientation::YDown, Orientation::XUp, Orientation::YUp, Orientation::XDown] {
        assert_eq!(classify(previous, tilt(0.95), tilt(0.0)), Orientation::XUp);
        assert_eq!(classify(previous, tilt(-0.95), tilt(0.0)), Orientation::XDown);
        assert_eq!(classify(previous, tilt(0.0), tilt(0.95)), Orientation::YUp);
        assert_eq!(classify(previous, tilt(0.0), tilt(-0.95)), Orientation::YDown);
        assert_eq!(classify(previous, tilt(0.5), tilt(-0.5)), previous);
        assert_eq!(classify(previous, tilt(0.9), tilt(-0.9)), previous);
    }
}

#[test]
fn x_axis_is_tested_before_y_axis() {
    assert_eq!(classify(Orientation::YDown, Tilt::High, Tilt::High), Orientation::XUp);
    assert_eq!(classify(Orientation::YDown, Tilt::High, Tilt::Low), Orientation::XUp);
    assert_eq!(classify(Orientation::YUp, Tilt::Low, Tilt::High), Orientation::XDown);
    assert_eq!(classify(Orientation::YUp, Tilt::Low, Tilt::Low), Orientation::XDown);
}

#[test]
fn failed_reading_counts_as_zero() {
    assert_eq!(decode_sample(None), (0, 0));
}

#[test]
fn reading_is_two_little_endian_signed_numbers() {
    // 14400 = 0x3840, -14400 = 0xc7c0
    assert_eq!(decode_sample(Some([0x40, 0x38, 0xc0, 0xc7])), (14400, -14400));
    assert_eq!(decode_sample(Some([0, 0, 0, 0])), (0, 0));
    assert_eq!(decode_sample(Some([0xff, 0xff, 0x01, 0x00])), (-1, 1));
    assert_eq!(decode_sample(Some([0xff, 0x7f, 0x00, 0x80])), (i16::MAX, i16::MIN));
}

#[test]
fn signed_le_agrees_with_std_on_every_pair_of_bytes() {
    for lo in 0..=255u8 {
        for hi in 0..=255u8 {
            assert_eq!(signed_le(lo, hi), i16::from_le_bytes([lo, hi]));
        }
    }
}

#[test]
fn sample_to_orientation() {
    let scale = 64.0f32 / 0.004f32;
    let (x, y) = decode_sample(Some([0x00, 0x3c, 0x00, 0x00]));
    assert_eq!((x, y), (15360, 0));
    let mode = classify(Orientation::YDown, tilt(x as f32 / scale), tilt(y as f32 / scale));
    assert_eq!(mode, Orientation::XUp);
    let (x, y) = decode_sample(None);
    assert_eq!(classify(mode, tilt(x as f32 / scale), tilt(y as f32 / scale)), Orientation::XUp);
}
