use pyckitup::anim::Animation;
use pyckitup::resources::ImageHandle;

fn strip() -> ImageHandle {
    // A 400x100 pixel strip, in fixed-point units.
    ImageHandle { id: 7, width: 400_000, height: 100_000 }
}

#[test]
fn frame_index_example() {
    // Four frames over one second; advancing by 2.5 s wraps to an
    // accumulator of 0.5 s and lands on frame 2.
    let mut a = Animation::from_image(strip(), 4, 1_000_000);
    a.update(2_500_000);
    assert_eq!(a.current_us, 500_000);
    assert_eq!(a.nth(), 2);
}

#[test]
fn frame_index_in_range_for_any_dt() {
    let mut a = Animation::from_image(strip(), 4, 1_000_000);
    let dts: [u64; 8] = [0, 1, 999_999, 1_000_000, 1_000_001, 2_500_000, 16_666, 1_073_741_824];
    for dt in dts {
        a.update(dt);
        assert!(a.nth() < 4);
        assert!(a.current_us < 1_000_000);
    }
}

#[test]
fn frame_slicing_divides_width() {
    let a = Animation::from_image(strip(), 4, 1_000_000);
    assert_eq!(a.frame_size.x, 100_000);
    assert_eq!(a.frame_size.y, 100_000);
}

#[test]
fn frame_slicing_truncates_remainder() {
    // A width not evenly divisible leaves the remainder unused.
    let odd = ImageHandle { id: 8, width: 410_000, height: 100_000 };
    let a = Animation::from_image(odd, 4, 1_000_000);
    assert_eq!(a.frame_size.x, 102_500);
}

#[test]
fn played_flag_latches() {
    let mut a = Animation::from_image(strip(), 4, 1_000_000);
    assert!(!a.played);
    // Land on the last frame: accumulator 0.75 s -> index 3.
    a.update(750_000);
    assert_eq!(a.nth(), 3);
    assert!(a.played);
    // The flag stays set after the cycle wraps back to frame 0.
    a.update(250_000);
    assert_eq!(a.nth(), 0);
    assert!(a.played);
    a.play();
    assert!(!a.played);
    assert_eq!(a.current_us, 0);
}

#[test]
fn set_duration_applies_to_next_computation() {
    let mut a = Animation::from_image(strip(), 4, 1_000_000);
    a.update(500_000);
    assert_eq!(a.nth(), 2);
    // Doubling the duration keeps the accumulated 0.5 s as it is; the
    // next index computation sees 0.5 / 2.0 of the cycle -> frame 1.
    a.set_duration(2_000_000);
    assert_eq!(a.current_us, 500_000);
    assert_eq!(a.nth(), 1);
}
