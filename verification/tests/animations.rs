use singletact_programing_jig::animations::{
    clip, clip_min, is_interruptable, next_buffer, next_buffer_at, set_brightness, Animation,
    Interruptable, SparkleAnimation,
};
use singletact_programing_jig::colour::Rgb;
use singletact_programing_jig::LED_STRING_SIZE;

fn green() -> Rgb {
    Rgb::new(0, 255, 0)
}

#[test]
fn brightness_zero_is_black() {
    assert_eq!(set_brightness(0, Rgb::new(12, 200, 255)), Rgb::new(0, 0, 0));
}

#[test]
fn brightness_full_is_unscaled() {
    assert_eq!(set_brightness(255, Rgb::new(12, 200, 255)), Rgb::new(12, 200, 255));
}

#[test]
fn brightness_scales_each_channel_rounding_down() {
    // 100 * 128 / 255 = 50.19.., 200 * 128 / 255 = 100.39.., 255 * 128 / 255 = 128
    assert_eq!(set_brightness(128, Rgb::new(100, 200, 255)), Rgb::new(50, 100, 128));
    // 255 * 254 / 255 = 254, 1 * 254 / 255 = 0
    assert_eq!(set_brightness(254, Rgb::new(255, 1, 3)), Rgb::new(254, 0, 2));
    assert_eq!(set_brightness(1, Rgb::new(255, 254, 0)), Rgb::new(1, 0, 0));
}

#[test]
fn brightness_matches_formula_for_every_level() {
    for b in 0..=255u16 {
        for c in [0u16, 1, 7, 127, 128, 254, 255] {
            let out = set_brightness(b as u8, Rgb::new(c as u8, c as u8, c as u8));
            assert_eq!(out.r as u16, c * b / 255);
            assert_eq!(out.g as u16, c * b / 255);
            assert_eq!(out.b as u16, c * b / 255);
        }
    }
}

#[test]
fn clip_limits_to_channel_range() {
    assert_eq!(clip(-1), 0);
    assert_eq!(clip(i16::MIN), 0);
    assert_eq!(clip(0), 0);
    assert_eq!(clip(17), 17);
    assert_eq!(clip(255), 255);
    assert_eq!(clip(256), 255);
    assert_eq!(clip(i16::MAX), 255);
}

#[test]
fn clip_min_raises_to_the_minimum() {
    assert_eq!(clip_min(-5, 10), 10);
    assert_eq!(clip_min(9, 10), 10);
    assert_eq!(clip_min(10, 10), 10);
    assert_eq!(clip_min(200, 10), 200);
    assert_eq!(clip_min(0, 0), 0);
}

#[test]
fn clip_min_keeps_low_eight_bits_above_range() {
    assert_eq!(clip_min(256, 10), 0);
    assert_eq!(clip_min(300, 0), 44);
}

#[test]
fn sparkle_without_expiry_is_interruptable() {
    let s = SparkleAnimation::new_at(green(), None, 5);
    assert!(s.is_interruptable());
    assert_eq!(s.expires(), None);
    assert!(is_interruptable(&Animation::Sparkle(s)));
}

#[test]
fn sparkle_with_expiry_is_not_interruptable() {
    let mut s = SparkleAnimation::new_at(green(), Some(100), 5);
    assert!(!s.is_interruptable());
    assert_eq!(s.expires(), Some(105));
    for now in [5u64, 50, 104, 105, 106, 1000] {
        let _ = s.next_at(now);
        assert!(!s.is_interruptable());
    }
}

#[test]
fn sparkle_expiry_saturates_at_the_last_tick() {
    let s = SparkleAnimation::new_at(green(), Some(10), u64::MAX - 3);
    assert_eq!(s.expires(), Some(u64::MAX));
}

#[test]
fn sparkle_gives_frames_until_expiry() {
    let mut s = SparkleAnimation::new_at(green(), Some(100), 0);
    assert!(s.next_at(0).is_some());
    assert!(s.next_at(99).is_some());
    assert!(s.next_at(100).is_none());
}

#[test]
fn sparkle_end_is_sticky_even_if_clock_goes_back() {
    let mut s = SparkleAnimation::new_at(green(), Some(100), 0);
    assert!(s.next_at(100).is_none());
    assert!(s.next_at(101).is_none());
    assert!(s.next_at(0).is_none());
    assert!(s.next_at(u64::MAX).is_none());
}

#[test]
fn sparkle_without_expiry_never_ends() {
    let mut s = SparkleAnimation::new_at(green(), None, 0);
    for now in [0u64, 1, 1_000_000, u64::MAX] {
        assert!(s.next_at(now).is_some());
    }
}

#[test]
fn sparkle_frame_is_the_colour_at_the_drawn_brightness() {
    // The generator is seeded with the tick count: the same draws can be
    // made here.
    let colour = Rgb::new(10, 200, 255);
    let mut s = SparkleAnimation::new_at(colour, None, 42);
    let mut rng = fastrand::Rng::with_seed(42);
    for _ in 0..50 {
        let frame = s.next_at(0).unwrap();
        assert_eq!(frame.len(), LED_STRING_SIZE);
        for pixel in frame.iter() {
            let b = rng.u8(0..255);
            assert!(b < 255);
            assert_eq!(*pixel, set_brightness(b, colour));
        }
    }
}

#[test]
fn sparkle_pixels_never_exceed_the_colour() {
    let colour = Rgb::new(10, 200, 255);
    let mut s = SparkleAnimation::new_at(colour, None, 7);
    let mut seen_different = false;
    let first = s.next_at(0).unwrap();
    for _ in 0..200 {
        let frame = s.next_at(0).unwrap();
        for pixel in frame.iter() {
            assert!(pixel.r <= colour.r && pixel.g <= colour.g && pixel.b < colour.b);
        }
        if frame != first {
            seen_different = true;
        }
    }
    assert!(seen_different);
}

#[test]
fn next_buffer_at_follows_the_sparkle() {
    let mut a = Animation::Sparkle(SparkleAnimation::new_at(green(), Some(10), 0));
    let mut b = SparkleAnimation::new_at(green(), Some(10), 0);
    assert_eq!(next_buffer_at(&mut a, 3), b.next_at(3));
    assert_eq!(next_buffer_at(&mut a, 10), None);
    assert_eq!(next_buffer_at(&mut a, 3), None);
}

#[test]
fn next_buffer_reads_the_clock() {
    let mut forever = Animation::Sparkle(SparkleAnimation::new(green(), None));
    assert!(next_buffer(&mut forever).is_some());
    let mut over = Animation::Sparkle(SparkleAnimation::new(green(), Some(0)));
    assert!(next_buffer(&mut over).is_none());
    assert!(next_buffer(&mut over).is_none());
}

#[test]
fn sparkle_made_now_expires_after_its_time_to_live() {
    let s = SparkleAnimation::new(green(), Some(2_000_000));
    let t = embassy_time::Instant::now().as_ticks();
    let e = s.expires().unwrap();
    assert!(e <= t + 2_000_000);
    assert!(e + 1_000_000 > t + 2_000_000);
    assert_eq!(s.colour(), green());
    let mut s = s;
    assert!(s.next().is_some());
}
