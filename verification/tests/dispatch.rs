use matrix_animations::dispatch::{
    apply_brightness, brightness_for, turn_for, FRAMES_PER_SECOND, FRAME_DELAY_US,
};
use matrix_animations::{
    rotate_180, rotate_270, rotate_90, Animation, Dispatcher, FromRaw, Life, Orientation, Pixel,
    Rainbow, Tilt,
};

fn keep_forever(bytes: Vec<u8>) -> &'static [u8] {
    Box::leak(bytes.into_boxed_slice())
}

fn patterned_clip(frames: usize, seed: usize) -> &'static [u8] {
    let mut bytes = Vec::new();
    for k in 0..frames * 192 {
        bytes.push(((k * 7 + seed * 13 + k / 192) % 256) as u8);
    }
    keep_forever(bytes)
}

fn dispatcher() -> Dispatcher {
    let long = FromRaw::new(patterned_clip(6, 1));
    let short = FromRaw::new(patterned_clip(3, 2));
    Dispatcher::new(Life::new(5, 6), long, short)
}

#[test]
fn y_down_shows_the_rainbow_unscaled() {
    let mut d = dispatcher();
    assert_eq!(d.orientation(), Orientation::YDown);
    let frame = d.step(Tilt::Level, Tilt::Level).unwrap();
    // HSV (0, 255, 32) as RGB; brightness 255 changes nothing.
    assert_eq!(frame[0], Pixel::new(32, 0, 0));
    assert_eq!(frame, Rainbow::default().to_list());
}

#[test]
fn selection_table() {
    assert_eq!(brightness_for(Orientation::YDown), 255);
    assert_eq!(brightness_for(Orientation::XUp), 40);
    assert_eq!(brightness_for(Orientation::YUp), 25);
    assert_eq!(brightness_for(Orientation::XDown), 25);
    let mut b = [Pixel::black(); 64];
    for (i, p) in b.iter_mut().enumerate() {
        *p = Pixel::new(i as u8, 0, 0);
    }
    assert_eq!(turn_for(Orientation::YDown, b), b);
    assert_eq!(turn_for(Orientation::XUp, b), rotate_90(b));
    assert_eq!(turn_for(Orientation::YUp, b), rotate_180(b));
    assert_eq!(turn_for(Orientation::XDown, b), rotate_270(b));
}

#[test]
fn x_up_shows_life_turned_and_dimmed() {
    let mut d = dispatcher();
    let mut life = Life::new(5, 6);
    for _ in 0..30 {
        let frame = d.step(Tilt::High, Tilt::Level).unwrap();
        assert_eq!(d.orientation(), Orientation::XUp);
        assert_eq!(frame, apply_brightness(&rotate_90(life.to_list()), 40));
        life.next();
    }
}

#[test]
fn y_up_shows_the_long_clip_and_x_down_the_short_one() {
    let mut d = dispatcher();
    let mut long = FromRaw::new(patterned_clip(6, 1));
    let mut short = FromRaw::new(patterned_clip(3, 2));
    for _ in 0..8 {
        let frame = d.step(Tilt::Level, Tilt::High).unwrap();
        assert_eq!(d.orientation(), Orientation::YUp);
        assert_eq!(frame, apply_brightness(&rotate_180(long.to_list()), 25));
        long.next();
    }
    for _ in 0..5 {
        let frame = d.step(Tilt::Low, Tilt::Level).unwrap();
        assert_eq!(d.orientation(), Orientation::XDown);
        assert_eq!(frame, apply_brightness(&rotate_270(short.to_list()), 25));
        short.next();
    }
}

#[test]
fn only_the_shown_animation_moves() {
    let mut d = dispatcher();
    let mut rainbow = Rainbow::default();
    // Three rainbow frames, then many frames of other animations.
    for _ in 0..3 {
        assert_eq!(d.step(Tilt::Level, Tilt::Low), Some(rainbow.to_list()));
        rainbow.next();
    }
    for _ in 0..50 {
        assert!(d.step(Tilt::High, Tilt::Level).is_some());
        assert!(d.step(Tilt::Level, Tilt::High).is_some());
        assert!(d.step(Tilt::Low, Tilt::Level).is_some());
    }
    // The rainbow goes on where it stopped.
    assert_eq!(d.step(Tilt::Level, Tilt::Low), Some(rainbow.to_list()));
}

#[test]
fn orientation_is_kept_until_a_threshold_is_crossed() {
    let mut d = dispatcher();
    d.orient(Tilt::High, Tilt::Level);
    assert_eq!(d.orientation(), Orientation::XUp);
    d.orient(Tilt::Level, Tilt::Level);
    assert_eq!(d.orientation(), Orientation::XUp);
    d.orient(Tilt::Level, Tilt::Low);
    assert_eq!(d.orientation(), Orientation::YDown);
}

#[test]
fn empty_clip_cannot_be_shown() {
    let empty = FromRaw::new(keep_forever(Vec::new()));
    let mut d = Dispatcher::new(Life::new(1, 1), empty, FromRaw::new(patterned_clip(1, 0)));
    assert!(d.is_ready());
    d.orient(Tilt::Level, Tilt::High);
    assert!(!d.is_ready());
    // The sample is taken in, but there is no frame.
    assert_eq!(d.step(Tilt::Level, Tilt::Level), None);
    assert_eq!(d.orientation(), Orientation::YUp);
    d.orient(Tilt::Low, Tilt::Level);
    assert!(d.is_ready());
    let frame = d.show();
    let only = FromRaw::new(patterned_clip(1, 0)).to_list();
    assert_eq!(frame, apply_brightness(&rotate_270(only), 25));
    assert!(d.step(Tilt::Level, Tilt::Low).is_some());
}

#[test]
fn frame_rate() {
    assert_eq!(FRAMES_PER_SECOND, 24);
    assert_eq!(FRAME_DELAY_US, 41_666);
}
