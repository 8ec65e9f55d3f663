use hue_control::transform::{brightness, color, power};
use hue_control::{
    Adjustment, BrightnessError, Chromaticity, ColorError, Direction, PowerState, StateTransform,
};

fn absolute(level: u8) -> StateTransform {
    StateTransform {
        power: Some(true),
        brightness: Some(Adjustment::Absolute(level)),
        chromaticity: None,
        scene: None,
    }
}

fn raised(amount: u8) -> StateTransform {
    StateTransform {
        power: Some(true),
        brightness: Some(Adjustment::Relative(Direction::Increment, amount)),
        chromaticity: None,
        scene: None,
    }
}

fn lowered(amount: u8) -> StateTransform {
    StateTransform {
        power: Some(true),
        brightness: Some(Adjustment::Relative(Direction::Decrement, amount)),
        chromaticity: None,
        scene: None,
    }
}

#[test]
fn power_state_converts_to_bool() {
    assert!(bool::from(PowerState::On));
    assert!(!bool::from(PowerState::Off));
}

#[test]
fn power_sets_only_the_power_field() {
    let on = power(PowerState::On);
    assert_eq!(
        on,
        StateTransform { power: Some(true), brightness: None, chromaticity: None, scene: None }
    );
    let off = power(PowerState::Off);
    assert_eq!(
        off,
        StateTransform { power: Some(false), brightness: None, chromaticity: None, scene: None }
    );
}

#[test]
fn brightness_without_sign_is_absolute() {
    assert_eq!(brightness("0"), Ok(absolute(0)));
    assert_eq!(brightness("1"), Ok(absolute(3)));
    assert_eq!(brightness("10"), Ok(absolute(26)));
    assert_eq!(brightness("39"), Ok(absolute(99)));
    assert_eq!(brightness("50"), Ok(absolute(128)));
    assert_eq!(brightness("99"), Ok(absolute(252)));
    assert_eq!(brightness("100"), Ok(absolute(255)));
}

#[test]
fn brightness_with_sign_is_relative() {
    assert_eq!(brightness("+10"), Ok(raised(26)));
    assert_eq!(brightness("-10"), Ok(lowered(26)));
    assert_eq!(brightness("+100"), Ok(raised(255)));
    assert_eq!(brightness("-100"), Ok(lowered(255)));
    assert_eq!(brightness("+0"), Ok(raised(0)));
    assert_eq!(brightness("-0"), Ok(lowered(0)));
    assert_eq!(brightness("-1"), Ok(lowered(3)));
}

#[test]
fn brightness_accepts_leading_zeros() {
    assert_eq!(brightness("007"), Ok(absolute(18)));
    assert_eq!(brightness("+0000000000000000000000000000100"), Ok(raised(255)));
}

#[test]
fn brightness_scales_every_percentage_to_the_nearest_level() {
    let mut previous: u8 = 0;
    for percent in 0u32..=100 {
        let text = percent.to_string();
        let level = match brightness(&text) {
            Ok(StateTransform { brightness: Some(Adjustment::Absolute(level)), .. }) => level,
            other => panic!("{} gave {:?}", text, other),
        };
        let exact = percent * 255;
        let scaled = u32::from(level) * 100;
        assert!(scaled + 50 >= exact && scaled < exact + 50 + 1, "{} gave {}", percent, level);
        assert!(level >= previous);
        previous = level;
        assert_eq!(brightness(&format!("+{}", text)), Ok(raised(level)));
        assert_eq!(brightness(&format!("-{}", text)), Ok(lowered(level)));
    }
}

#[test]
fn brightness_above_one_hundred_is_out_of_range() {
    assert_eq!(brightness("101"), Err(BrightnessError::OutOfRange));
    assert_eq!(brightness("255"), Err(BrightnessError::OutOfRange));
    assert_eq!(brightness("256"), Err(BrightnessError::OutOfRange));
    assert_eq!(brightness("+101"), Err(BrightnessError::OutOfRange));
    assert_eq!(brightness("-1000"), Err(BrightnessError::OutOfRange));
    assert_eq!(brightness("99999999999999999999999999999999"), Err(BrightnessError::OutOfRange));
}

#[test]
fn brightness_that_is_no_number_is_malformed() {
    assert_eq!(brightness(""), Err(BrightnessError::Malformed));
    assert_eq!(brightness("+"), Err(BrightnessError::Malformed));
    assert_eq!(brightness("-"), Err(BrightnessError::Malformed));
    assert_eq!(brightness("abc"), Err(BrightnessError::Malformed));
    assert_eq!(brightness("12a"), Err(BrightnessError::Malformed));
    assert_eq!(brightness("a12"), Err(BrightnessError::Malformed));
    assert_eq!(brightness("1.5"), Err(BrightnessError::Malformed));
    assert_eq!(brightness(" 5"), Err(BrightnessError::Malformed));
    assert_eq!(brightness("5 "), Err(BrightnessError::Malformed));
    assert_eq!(brightness("50%"), Err(BrightnessError::Malformed));
    assert_eq!(brightness("\u{ff15}"), Err(BrightnessError::Malformed));
}

#[test]
fn brightness_with_a_second_sign_is_malformed() {
    assert_eq!(brightness("+-1"), Err(BrightnessError::Malformed));
    assert_eq!(brightness("--1"), Err(BrightnessError::Malformed));
    assert_eq!(brightness("++5"), Err(BrightnessError::Malformed));
    assert_eq!(brightness("-+5"), Err(BrightnessError::Malformed));
    assert_eq!(brightness("5+"), Err(BrightnessError::Malformed));
}

#[test]
fn a_malformed_digit_counts_even_behind_a_large_number() {
    assert_eq!(brightness("1000x"), Err(BrightnessError::Malformed));
    assert_eq!(brightness("x1000"), Err(BrightnessError::Malformed));
}

#[test]
fn brightness_errors_have_distinct_messages() {
    assert_eq!(
        BrightnessError::OutOfRange.message(),
        "The brightness value must be between 0 and 100."
    );
    assert_eq!(
        BrightnessError::Malformed.message(),
        "The brightness value must be of the form `[+-]<int>`."
    );
}

#[test]
fn color_sets_power_and_chromaticity() {
    let point = Chromaticity { x_bits: 0x3f00_0000, y_bits: 0x3e80_0000 };
    assert_eq!(
        color(Some(point)),
        Ok(StateTransform {
            power: Some(true),
            brightness: None,
            chromaticity: Some(point),
            scene: None,
        })
    );
}

#[test]
fn color_that_is_not_recognized_is_refused() {
    assert_eq!(color(None), Err(ColorError::NotRecognized));
    assert_eq!(ColorError::NotRecognized.message(), "Color couldn't be parsed.");
}
