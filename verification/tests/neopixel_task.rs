use singletact_programing_jig::colour::{hue_colour, Rgb};
use singletact_programing_jig::tasks::neopixel::{
    Emission, ModeError, ModeGenerator, Readings, RANDOM_DIVISOR, RATE_WINDOW,
};
use singletact_programing_jig::{RgbBrightness, RgbConfig, RgbMode, RgbRate};

fn config(mode: RgbMode, rate: RgbRate) -> RgbConfig {
    RgbConfig { rgb_mode: mode, rgb_brightness: RgbBrightness::Medium, rgb_rate_modifier: rate }
}

fn at(now: u64) -> Readings {
    Readings { now, random: 0, sine_hue: 0 }
}

fn wheel(hue: u8) -> Rgb {
    let c = smart_leds::hsv::hsv2rgb(smart_leds::hsv::Hsv { hue, sat: 255, val: 255 });
    Rgb::new(c.r, c.g, c.b)
}

#[test]
fn new_generator_remembers_black() {
    let g = ModeGenerator::new();
    assert_eq!(g.previous(), Rgb::new(0, 0, 0));
}

#[test]
fn static_colour_is_written_once() {
    let mut g = ModeGenerator::new();
    let cfg = config(RgbMode::Static(Rgb::new(1, 2, 3)), RgbRate::Slow);
    assert_eq!(
        g.step(&cfg, &at(0)),
        Ok(Emission::Write { colour: Rgb::new(1, 2, 3), level: 100 })
    );
    assert_eq!(g.previous(), Rgb::new(1, 2, 3));
    assert_eq!(g.step(&cfg, &at(1)), Ok(Emission::Hold));
    assert_eq!(g.step(&cfg, &at(2)), Ok(Emission::Hold));
    assert_eq!(g.previous(), Rgb::new(1, 2, 3));
}

#[test]
fn equal_colours_in_a_row_cause_one_write() {
    let mut g = ModeGenerator::new();
    let a = config(RgbMode::Static(Rgb::new(255, 0, 0)), RgbRate::Slow);
    // Hue 0 of the wheel is the same red, computed by another mode.
    let b = config(RgbMode::SineCycle(1), RgbRate::Moderate);
    let mut writes = 0;
    for cfg in [a, b, a, b] {
        if let Ok(Emission::Write { .. }) = g.step(&cfg, &at(0)) {
            writes += 1;
        }
    }
    assert_eq!(writes, 1);
}

#[test]
fn changed_colour_is_written_again() {
    let mut g = ModeGenerator::new();
    let a = config(RgbMode::Static(Rgb::new(1, 2, 3)), RgbRate::Slow);
    let b = config(RgbMode::Static(Rgb::new(3, 2, 1)), RgbRate::Slow);
    assert!(matches!(g.step(&a, &at(0)), Ok(Emission::Write { .. })));
    assert_eq!(g.step(&b, &at(0)), Ok(Emission::Write { colour: Rgb::new(3, 2, 1), level: 100 }));
    assert_eq!(g.step(&a, &at(0)), Ok(Emission::Write { colour: Rgb::new(1, 2, 3), level: 100 }));
}

#[test]
fn black_as_first_colour_is_not_written() {
    let mut g = ModeGenerator::new();
    let cfg = config(RgbMode::Static(Rgb::new(0, 0, 0)), RgbRate::Slow);
    assert_eq!(g.step(&cfg, &at(0)), Ok(Emission::Hold));
}

#[test]
fn write_carries_the_configured_brightness() {
    for (brightness, level) in [
        (RgbBrightness::Low, 10u8),
        (RgbBrightness::Medium, 100),
        (RgbBrightness::High, 200),
        (RgbBrightness::Max, 255),
    ] {
        let mut g = ModeGenerator::new();
        let cfg = RgbConfig {
            rgb_mode: RgbMode::Static(Rgb::new(9, 9, 9)),
            rgb_brightness: brightness,
            rgb_rate_modifier: RgbRate::Slow,
        };
        assert_eq!(
            g.step(&cfg, &at(0)),
            Ok(Emission::Write { colour: Rgb::new(9, 9, 9), level })
        );
    }
}

#[test]
fn sine_mode_shows_the_hue_it_is_handed() {
    let mut g = ModeGenerator::new();
    let cfg = config(RgbMode::SineCycle(1), RgbRate::Moderate);
    let r = Readings { now: 0, random: 0, sine_hue: 0 };
    assert_eq!(g.step(&cfg, &r), Ok(Emission::Write { colour: Rgb::new(255, 0, 0), level: 100 }));
    let r = Readings { now: 224_000, random: 0, sine_hue: 254 };
    assert_eq!(g.step(&cfg, &r), Ok(Emission::Write { colour: wheel(254), level: 100 }));
    let r = Readings { now: 224_001, random: 5, sine_hue: 254 };
    assert_eq!(g.step(&cfg, &r), Ok(Emission::Hold));
}

#[test]
fn continuous_hue_is_seconds_times_pace_modulo_255() {
    let mut g = ModeGenerator::new();
    // rate 2, multiplier 7: 14 hues a second
    let cfg = config(RgbMode::Continuous(2), RgbRate::Moderate);
    assert_eq!(g.step(&cfg, &at(3_000_000)), Ok(Emission::Write { colour: wheel(42), level: 100 }));
    // 3.5 s * 14 = 49
    assert_eq!(g.step(&cfg, &at(3_500_000)), Ok(Emission::Write { colour: wheel(49), level: 100 }));
    // 3.57 s * 14 = 49.98: still hue 49, nothing to write
    assert_eq!(g.step(&cfg, &at(3_570_000)), Ok(Emission::Hold));
    // 20 s * 14 = 280 = 255 + 25
    assert_eq!(g.step(&cfg, &at(20_000_000)), Ok(Emission::Write { colour: wheel(25), level: 100 }));
}

#[test]
fn continuous_hue_never_reaches_255_and_takes_any_rate() {
    let mut g = ModeGenerator::new();
    let cfg = config(RgbMode::Continuous(u32::MAX), RgbRate::VeryFast);
    let product = (u64::MAX as u128) * (u32::MAX as u128) * 55;
    let hue = ((product / 1_000_000) % 255) as u8;
    let out = g.step(&cfg, &at(u64::MAX));
    if wheel(hue) == Rgb::new(0, 0, 0) {
        assert_eq!(out, Ok(Emission::Hold));
    } else {
        assert_eq!(out, Ok(Emission::Write { colour: wheel(hue), level: 100 }));
    }
    let still = config(RgbMode::Continuous(0), RgbRate::VeryFast);
    // Rate 0 stays at hue 0.
    let mut g = ModeGenerator::new();
    assert_eq!(g.step(&still, &at(77_000_000)), Ok(Emission::Write { colour: wheel(0), level: 100 }));
    assert_eq!(g.step(&still, &at(99_000_000)), Ok(Emission::Hold));
}

#[test]
fn random_mode_draws_only_when_the_period_comes_round() {
    let mut g = ModeGenerator::new();
    // pace 1: one draw every 5000 ms
    let cfg = config(RgbMode::Random(1), RgbRate::VerySlow);
    let r = Readings { now: 5_000_000, random: 257 * 100, sine_hue: 0 };
    assert_eq!(g.step(&cfg, &r), Ok(Emission::Write { colour: wheel(100), level: 100 }));
    let r = Readings { now: 5_001_000, random: 257 * 30, sine_hue: 0 };
    assert_eq!(g.step(&cfg, &r), Ok(Emission::Hold));
    assert_eq!(g.previous(), wheel(100));
    let r = Readings { now: 9_999_999, random: 257 * 30, sine_hue: 0 };
    assert_eq!(g.step(&cfg, &r), Ok(Emission::Hold));
    // Any tick within the due millisecond counts.
    let r = Readings { now: 10_000_999, random: 257 * 30 + 256, sine_hue: 0 };
    assert_eq!(g.step(&cfg, &r), Ok(Emission::Write { colour: wheel(30), level: 100 }));
}

#[test]
fn random_hue_is_the_reading_over_257_kept_to_eight_bits() {
    assert_eq!(RANDOM_DIVISOR, 257);
    let cfg = config(RgbMode::Random(RATE_WINDOW as u32), RgbRate::VerySlow);
    for random in [0u32, 256, 257, 65_535, 65_536 * 10, 1 << 24, u32::MAX] {
        let mut g = ModeGenerator::new();
        let hue = ((random / 257) % 256) as u8;
        let out = g.step(&cfg, &Readings { now: 123_456, random, sine_hue: 0 });
        assert_eq!(out, Ok(Emission::Write { colour: wheel(hue), level: 100 }));
    }
}

#[test]
fn fibonacci_mode_takes_a_term_each_period() {
    let mut g = ModeGenerator::new();
    // pace 20 * 5 = 100: a term every 50 ms
    let cfg = config(RgbMode::Fibonacci(5), RgbRate::Fast);
    let mut hues = Vec::new();
    for k in 0..6u64 {
        assert_eq!(g.step(&cfg, &at(k * 50_000 + 1_000)), Ok(Emission::Hold));
        match g.step(&cfg, &at(k * 50_000)) {
            Ok(Emission::Write { colour, level }) => {
                assert_eq!(level, 100);
                hues.push(colour);
            }
            other => panic!("no write: {:?}", other),
        }
    }
    let expected: Vec<Rgb> = [1u8, 2, 3, 5, 8, 13].iter().map(|h| wheel(*h)).collect();
    assert_eq!(hues, expected);
}

#[test]
fn millisecond_count_is_kept_to_32_bits() {
    let mut g = ModeGenerator::new();
    let cfg = config(RgbMode::Random(1), RgbRate::VerySlow);
    // 2^32 ms is no multiple of 5000, but kept to 32 bits it is 0.
    let now = (1u64 << 32) * 1000;
    let r = Readings { now, random: 257 * 7, sine_hue: 0 };
    assert_eq!(g.step(&cfg, &r), Ok(Emission::Write { colour: wheel(7), level: 100 }));
}

#[test]
fn paced_mode_with_rate_out_of_range_is_turned_down() {
    let mut g = ModeGenerator::new();
    let r = at(0);
    for cfg in [
        config(RgbMode::Random(0), RgbRate::Moderate),
        config(RgbMode::Fibonacci(0), RgbRate::VeryFast),
        config(RgbMode::Random(5001), RgbRate::VerySlow),
        config(RgbMode::Fibonacci(91), RgbRate::VeryFast),
        config(RgbMode::Random(u32::MAX), RgbRate::VeryFast),
    ] {
        assert_eq!(g.step(&cfg, &r), Err(ModeError::RateOutOfRange));
        assert_eq!(g.previous(), Rgb::new(0, 0, 0));
    }
    // 90 * 55 = 4950 is in range, with a period of one millisecond.
    let cfg = config(RgbMode::Fibonacci(90), RgbRate::VeryFast);
    assert_eq!(g.step(&cfg, &at(777_000)), Ok(Emission::Write { colour: wheel(1), level: 100 }));
    let cfg = config(RgbMode::Random(5000), RgbRate::VerySlow);
    assert!(g.step(&cfg, &at(778_000)).is_ok());
}

#[test]
fn turned_down_step_takes_no_term() {
    let mut g = ModeGenerator::new();
    let bad = config(RgbMode::Fibonacci(0), RgbRate::Fast);
    let good = config(RgbMode::Fibonacci(5000), RgbRate::VerySlow);
    assert!(g.step(&bad, &at(0)).is_err());
    assert_eq!(g.step(&good, &at(0)), Ok(Emission::Write { colour: wheel(1), level: 100 }));
}

#[test]
fn hue_colour_is_the_wheel_of_the_led_crate() {
    for hue in 0..=255u8 {
        assert_eq!(hue_colour(hue), wheel(hue));
    }
}
