use matrix_animations::{rotate_180, rotate_270, rotate_90, Pixel};

fn numbered() -> [Pixel; 64] {
    let mut frame = [Pixel::black(); 64];
    for (i, p) in frame.iter_mut().enumerate() {
        *p = Pixel::new(i as u8, (i * 2) as u8, (i * 3) as u8);
    }
    frame
}

#[test]
fn rotate_90_four_times_is_identity() {
    let b = numbered();
    assert_eq!(rotate_90(rotate_90(rotate_90(rotate_90(b)))), b);
}

#[test]
fn rotate_180_twice_is_identity() {
    let b = numbered();
    assert_eq!(rotate_180(rotate_180(b)), b);
}

#[test]
fn rotate_270_is_rotate_90_after_rotate_180() {
    let b = numbered();
    assert_eq!(rotate_270(b), rotate_90(rotate_180(b)));
    assert_eq!(rotate_270(b), rotate_180(rotate_90(b)));
}

#[test]
fn rotate_270_undoes_rotate_90() {
    let b = numbered();
    assert_eq!(rotate_270(rotate_90(b)), b);
    assert_eq!(rotate_90(rotate_270(b)), b);
}

#[test]
fn rotate_90_moves_each_cell_to_seven_minus_y_and_x() {
    let b = numbered();
    let turned = rotate_90(b);
    for y in 0..8 {
        for x in 0..8 {
            assert_eq!(turned[x * 8 + (7 - y)], b[y * 8 + x]);
        }
    }
    // The top-left corner goes to the top-right one, the top-right one to
    // the bottom-right one.
    assert_eq!(turned[7], b[0]);
    assert_eq!(turned[63], b[7]);
    assert_eq!(turned[56], b[63]);
    assert_eq!(turned[0], b[56]);
}

#[test]
fn rotate_180_reverses_the_frame() {
    let b = numbered();
    let turned = rotate_180(b);
    for i in 0..64 {
        assert_eq!(turned[63 - i], b[i]);
    }
    for y in 0..8 {
        for x in 0..8 {
            assert_eq!(turned[(7 - y) * 8 + (7 - x)], b[y * 8 + x]);
        }
    }
}

#[test]
fn rotate_270_moves_each_cell_to_y_and_seven_minus_x() {
    let b = numbered();
    let turned = rotate_270(b);
    for y in 0..8 {
        for x in 0..8 {
            assert_eq!(turned[(7 - x) * 8 + y], b[y * 8 + x]);
        }
    }
    assert_eq!(turned[56], b[0]);
    assert_eq!(turned[0], b[7]);
}

#[test]
fn rotations_keep_a_uniform_frame() {
    let b = [Pixel::new(9, 8, 7); 64];
    assert_eq!(rotate_90(b), b);
    assert_eq!(rotate_180(b), b);
    assert_eq!(rotate_270(b), b);
}
