use matrix_animations::{Animation, FromRaw, Pixel};

fn leak(bytes: Vec<u8>) -> &'static [u8] {
    Box::leak(bytes.into_boxed_slice())
}

fn clip(frames: usize) -> &'static [u8] {
    let mut bytes = Vec::new();
    for f in 0..frames {
        for i in 0..64 {
            bytes.push((f * 40 + 1) as u8);
            bytes.push(i as u8);
            bytes.push((255 - i) as u8);
        }
    }
    leak(bytes)
}

#[test]
fn clip_of_five_frames_has_five_frames_and_comes_round() {
    let data = clip(5);
    assert_eq!(data.len(), 192 * 5);
    let mut player = FromRaw::new(data);
    assert_eq!(player.num_frames(), 5);
    let first = player.to_list();
    for step in 1..5 {
        player.next();
        assert_ne!(player.to_list(), first, "frame {step}");
    }
    player.next();
    assert_eq!(player.to_list(), first);
}

#[test]
fn clip_of_193_bytes_is_refused() {
    assert!(FromRaw::try_new(leak(vec![0u8; 193])).is_none());
    assert!(FromRaw::try_new(leak(vec![0u8; 191])).is_none());
    assert!(FromRaw::try_new(leak(vec![0u8; 1])).is_none());
    assert!(FromRaw::try_new(leak(vec![0u8; 64])).is_none());
}

#[test]
fn clip_of_whole_frames_is_accepted() {
    assert!(FromRaw::try_new(leak(vec![0u8; 192])).is_some());
    assert!(FromRaw::try_new(leak(vec![0u8; 384])).is_some());
    let empty = FromRaw::try_new(leak(Vec::new()));
    assert!(empty.is_some());
    assert_eq!(empty.unwrap().num_frames(), 0);
}

#[test]
fn clip_reads_three_bytes_per_pixel() {
    let data = clip(3);
    let mut player = FromRaw::new(data);
    for f in 0..3usize {
        let frame = player.to_list();
        for i in 0..64usize {
            let offset = f * 192 + i * 3;
            assert_eq!(frame[i], Pixel::new(data[offset], data[offset + 1], data[offset + 2]));
            assert_eq!(frame[i], Pixel::new((f * 40 + 1) as u8, i as u8, (255 - i) as u8));
        }
        player.next();
    }
}

#[test]
fn clip_of_one_frame_stays_on_it() {
    let mut player = FromRaw::new(clip(1));
    assert_eq!(player.num_frames(), 1);
    let first = player.to_list();
    player.next();
    assert_eq!(player.to_list(), first);
    player.next();
    assert_eq!(player.to_list(), first);
}

#[test]
fn two_players_of_one_clip_move_apart() {
    let data = clip(4);
    let mut a = FromRaw::new(data);
    let b = FromRaw::new(data);
    a.next();
    assert_ne!(a.to_list(), b.to_list());
    assert_eq!(b.to_list()[0], Pixel::new(1, 0, 255));
    assert_eq!(a.to_list()[0], Pixel::new(41, 0, 255));
}
