use singletact_programing_jig::colour::Rgb;
use singletact_programing_jig::{
    RgbBrightness, RgbConfig, RgbMode, RgbRate, ANIMATION_UPDATE, DEFAULT_COLOUR,
    LED_STRING_SIZE, MAX_PENDING_ANIMATIONS, TICKS_PER_SECOND,
};

#[test]
fn constants() {
    assert_eq!(ANIMATION_UPDATE, 250);
    assert_eq!(DEFAULT_COLOUR, [0, 255, 0]);
    assert_eq!(LED_STRING_SIZE, 1);
    assert_eq!(MAX_PENDING_ANIMATIONS, 20);
    assert_eq!(TICKS_PER_SECOND, 1_000_000);
    assert_eq!(TICKS_PER_SECOND, embassy_time::TICK_HZ);
}

#[test]
fn brightness_levels() {
    assert_eq!(RgbBrightness::Low.level(), 10);
    assert_eq!(RgbBrightness::Medium.level(), 100);
    assert_eq!(RgbBrightness::High.level(), 200);
    assert_eq!(RgbBrightness::Max.level(), 255);
}

#[test]
fn rate_multipliers() {
    assert_eq!(RgbRate::VerySlow.multiplier(), 1);
    assert_eq!(RgbRate::Slow.multiplier(), 3);
    assert_eq!(RgbRate::Moderate.multiplier(), 7);
    assert_eq!(RgbRate::Fast.multiplier(), 20);
    assert_eq!(RgbRate::VeryFast.multiplier(), 55);
}

#[test]
fn default_configuration() {
    let cfg = RgbConfig::default();
    assert_eq!(cfg.rgb_mode, RgbMode::SineCycle(1));
    assert_eq!(cfg.rgb_brightness, RgbBrightness::Low);
    assert_eq!(cfg.rgb_rate_modifier, RgbRate::Moderate);
}

#[test]
fn set_mode_replaces_only_the_mode() {
    let mut cfg = RgbConfig {
        rgb_mode: RgbMode::Random(3),
        rgb_brightness: RgbBrightness::Max,
        rgb_rate_modifier: RgbRate::Slow,
    };
    cfg.set_mode(RgbMode::Static(Rgb::new(1, 2, 3)));
    assert_eq!(
        cfg,
        RgbConfig {
            rgb_mode: RgbMode::Static(Rgb::new(1, 2, 3)),
            rgb_brightness: RgbBrightness::Max,
            rgb_rate_modifier: RgbRate::Slow,
        }
    );
}
