//! State-change descriptors and the functions that build them from command arguments.

use vstd::prelude::*;

verus! {

/// Whether a light is asked to be on or off.
#[derive(Clone, Copy, Debug, PartialEq, Eq, Structural)]
pub enum PowerState {
    On,
    Off,
}

impl PowerState {
    /// The boolean a bridge understands: `true` for on.
    pub open spec fn is_on(self) -> bool {
        self == PowerState::On
    }
}

impl vstd::std_specs::convert::FromSpecImpl<PowerState> for bool {
    open spec fn obeys_from_spec() -> bool {
        true
    }

    open spec fn from_spec(ps: PowerState) -> bool {
        ps.is_on()
    }
}

impl From<PowerState> for bool {
    fn from(ps: PowerState) -> (on: bool) {
        match ps {
            PowerState::On => true,
            PowerState::Off => false,
        }
    }
}

/// The direction of a relative change.
#[derive(Clone, Copy, Debug, PartialEq, Eq, Structural)]
pub enum Direction {
    /// Add to the current value.
    Increment,
    /// Subtract from the current value.
    Decrement,
}

/// A change to a numeric device property on the device scale `0..=255`.
#[derive(Clone, Copy, Debug, PartialEq, Eq, Structural)]
pub enum Adjustment {
    /// Replace the current value by this one.
    Absolute(u8),
    /// Move the current value by this amount in the given direction.
    Relative(Direction, u8),
}

impl Adjustment {
    /// The level or amount on the device scale, without the direction.
    pub open spec fn magnitude(self) -> int {
        match self {
            Adjustment::Absolute(level) => level as int,
            Adjustment::Relative(_, amount) => amount as int,
        }
    }
}

/// A point of the CIE 1931 chromaticity diagram. Each coordinate is carried as the
/// bit pattern of an IEEE 754 single-precision number, which the library passes on
/// untouched.
#[derive(Clone, Copy, Debug, PartialEq, Eq, Structural)]
pub struct Chromaticity {
    pub x_bits: u32,
    pub y_bits: u32,
}

/// The change a command asks of its targets. A field that is `None` leaves that
/// property of the device alone.
#[derive(Clone, Debug, PartialEq, Eq)]
pub struct StateTransform {
    pub power: Option<bool>,
    pub brightness: Option<Adjustment>,
    pub chromaticity: Option<Chromaticity>,
    pub scene: Option<String>,
}

/// The transform of a plain on/off command: the power state and nothing else.
pub open spec fn power_transform(on: bool) -> StateTransform {
    StateTransform { power: Some(on), brightness: None, chromaticity: None, scene: None }
}

/// Builds the transform for switching lights on or off.
pub fn power(power_state: PowerState) -> (t: StateTransform)
    ensures
        t == power_transform(power_state.is_on()),
{
    let on: bool = bool::from(power_state);
    StateTransform { power: Some(on), brightness: None, chromaticity: None, scene: None }
}

/// Why a brightness argument was refused.
#[derive(Clone, Copy, Debug, PartialEq, Eq, Structural)]
pub enum BrightnessError {
    /// The digits are well formed but denote more than 100.
    OutOfRange,
    /// The argument is not an optional sign followed by one or more decimal digits.
    Malformed,
}

impl BrightnessError {
    /// The line shown to the operator.
    pub fn message(&self) -> (m: &'static str)
        ensures
            m@ == match *self {
                BrightnessError::OutOfRange => "The brightness value must be between 0 and 100."@,
                BrightnessError::Malformed => "The brightness value must be of the form `[+-]<int>`."@,
            },
    {
        match *self {
            BrightnessError::OutOfRange => "The brightness value must be between 0 and 100.",
            BrightnessError::Malformed => "The brightness value must be of the form `[+-]<int>`.",
        }
    }
}

/// An ASCII decimal digit.
pub open spec fn is_digit(c: char) -> bool {
    '0' <= c <= '9'
}

/// Every character of `s` is an ASCII decimal digit.
pub open spec fn all_digits(s: Seq<char>) -> bool {
    forall|i: int| 0 <= i < s.len() ==> is_digit(#[trigger] s[i])
}

/// The number that a string of decimal digits denotes, most significant digit first.
pub open spec fn decimal_value(s: Seq<char>) -> nat
    decreases s.len(),
{
    if s.len() == 0 {
        0
    } else {
        (decimal_value(s.drop_last()) * 10 + (s.last() as int - '0' as int)) as nat
    }
}

/// A percentage brought to the device scale: the integer nearest to
/// `percent / 100 * 255`, a tie going up.
pub open spec fn scale_percent(percent: int) -> int {
    (percent * 255 + 50) / 100
}

/// The length of the sign in front of a brightness argument: 1 or 0.
pub open spec fn sign_len(s: Seq<char>) -> int {
    if s.len() > 0 && (s[0] == '+' || s[0] == '-') {
        1
    } else {
        0
    }
}

/// What a brightness argument means. An optional `+` or `-` asks for a relative
/// change and is followed by the percentage in decimal digits; the percentage is
/// at most 100 and is brought to the device scale.
pub open spec fn parse_brightness(s: Seq<char>) -> Result<Adjustment, BrightnessError> {
    let digits = s.subrange(sign_len(s), s.len() as int);
    if digits.len() == 0 || !all_digits(digits) {
        Err(BrightnessError::Malformed)
    } else if decimal_value(digits) > 100 {
        Err(BrightnessError::OutOfRange)
    } else {
        let level = scale_percent(decimal_value(digits) as int);
        if s[0] == '+' {
            Ok(Adjustment::Relative(Direction::Increment, level as u8))
        } else if s[0] == '-' {
            Ok(Adjustment::Relative(Direction::Decrement, level as u8))
        } else {
            Ok(Adjustment::Absolute(level as u8))
        }
    }
}

/// The transform of a brightness command: the lights are switched on and their
/// brightness adjusted.
pub open spec fn brightness_transform(a: Adjustment) -> StateTransform {
    StateTransform { power: Some(true), brightness: Some(a), chromaticity: None, scene: None }
}

/// Appending a digit multiplies the number by ten and adds the digit, so the
/// number never shrinks.
proof fn lemma_decimal_value_grows(s: Seq<char>)
    requires
        s.len() > 0,
        is_digit(s.last()),
    ensures
        decimal_value(s) >= decimal_value(s.drop_last()),
        decimal_value(s) == decimal_value(s.drop_last()) * 10 + (s.last() as int - '0' as int),
{
}

/// Compiles a brightness argument into a transform.
pub fn brightness(value: &str) -> (r: Result<StateTransform, BrightnessError>)
    ensures
        r == match parse_brightness(value@) {
            Ok(a) => Ok(brightness_transform(a)),
            Err(e) => Err(e),
        },
{
    let n: usize = value.unicode_len();
    let mut start: usize = 0;
    let mut relative: bool = false;
    let mut negative: bool = false;
    if n > 0 {
        let first = value.get_char(0);
        if first == '+' {
            start = 1;
            relative = true;
        } else if first == '-' {
            start = 1;
            relative = true;
            negative = true;
        }
    }
    let ghost digits = value@.subrange(start as int, n as int);
    if start == n {
        return Err(BrightnessError::Malformed);
    }
    let mut i: usize = start;
    let mut percent: u32 = 0;
    let mut over: bool = false;
    while i < n
        invariant
            n == value@.len(),
            start <= i <= n,
            start == sign_len(value@),
            digits == value@.subrange(start as int, n as int),
            all_digits(digits.subrange(0, i - start)),
            percent <= 100,
            !over ==> percent == decimal_value(digits.subrange(0, i - start)),
            over ==> decimal_value(digits.subrange(0, i - start)) > 100,
        decreases n - i,
    {
        let c = value.get_char(i);
        if !(c >= '0' && c <= '9') {
            proof {
                assert(digits[i - start] == c);
                assert(!is_digit(digits[i - start]));
            }
            return Err(BrightnessError::Malformed);
        }
        proof {
            let before = digits.subrange(0, i - start);
            let after = digits.subrange(0, i - start + 1);
            assert(after.drop_last() =~= before);
            assert(after.last() == c);
            lemma_decimal_value_grows(after);
            assert forall|j: int| 0 <= j < after.len() implies is_digit(#[trigger] after[j]) by {
                if j < before.len() {
                    assert(after[j] == before[j]);
                }
            }
        }
        if !over {
            let digit: u32 = c as u32 - '0' as u32;
            let next: u32 = percent * 10 + digit;
            if next > 100 {
                over = true;
            } else {
                percent = next;
            }
        }
        i = i + 1;
    }
    proof {
        assert(digits.subrange(0, n - start) =~= digits);
    }
    if over {
        return Err(BrightnessError::OutOfRange);
    }
    let level: u32 = (percent * 255 + 50) / 100;
    let adjustment = if !relative {
        Adjustment::Absolute(level as u8)
    } else if negative {
        Adjustment::Relative(Direction::Decrement, level as u8)
    } else {
        Adjustment::Relative(Direction::Increment, level as u8)
    };
    Ok(StateTransform { power: Some(true), brightness: Some(adjustment), chromaticity: None, scene: None })
}

/// Why a color argument was refused.
#[derive(Clone, Copy, Debug, PartialEq, Eq, Structural)]
pub enum ColorError {
    /// The text names no color.
    NotRecognized,
}

impl ColorError {
    /// The line shown to the operator.
    pub fn message(&self) -> (m: &'static str)
        ensures
            m@ == "Color couldn't be parsed."@,
    {
        "Color couldn't be parsed."
    }
}

/// The transform of a color command: the lights are switched on and their color
/// set to the given point.
pub open spec fn color_transform(c: Chromaticity) -> StateTransform {
    StateTransform { power: Some(true), brightness: None, chromaticity: Some(c), scene: None }
}

/// Compiles the outcome of reading a color argument into a transform. `parsed` is
/// the chromaticity of the color the text names, or `None` where it names none.
pub fn color(parsed: Option<Chromaticity>) -> (r: Result<StateTransform, ColorError>)
    ensures
        r == match parsed {
            Some(c) => Ok(color_transform(c)),
            None => Err(ColorError::NotRecognized),
        },
{
    match parsed {
        Some(c) => Ok(
            StateTransform { power: Some(true), brightness: None, chromaticity: Some(c), scene: None },
        ),
        None => Err(ColorError::NotRecognized),
    }
}

/// The device level of a percentage is the nearest integer to `percent * 255 / 100`:
/// within the device scale, and at most half a unit away, a tie going up.
pub proof fn lemma_scale_percent_nearest(percent: int)
    requires
        0 <= percent <= 100,
    ensures
        0 <= scale_percent(percent) <= 255,
        -50 <= 255 * percent - 100 * scale_percent(percent) < 50,
        scale_percent(0) == 0,
        scale_percent(100) == 255,
{
}

/// A larger percentage never gives a lower device level.
pub proof fn lemma_scale_percent_monotonic(a: int, b: int)
    requires
        0 <= a <= b <= 100,
    ensures
        scale_percent(a) <= scale_percent(b),
{
}

/// A percentage of at most 100 written in digits is accepted in all three forms:
/// bare it replaces the brightness with the scaled level, behind `+` it raises the
/// brightness by that level, and behind `-` it lowers it by the same amount.
pub proof fn lemma_brightness_of_percentage(digits: Seq<char>)
    requires
        digits.len() > 0,
        all_digits(digits),
        decimal_value(digits) <= 100,
    ensures
        parse_brightness(digits) == Ok::<Adjustment, BrightnessError>(
            Adjustment::Absolute(scale_percent(decimal_value(digits) as int) as u8),
        ),
        parse_brightness(seq!['+'] + digits) == Ok::<Adjustment, BrightnessError>(
            Adjustment::Relative(
                Direction::Increment,
                scale_percent(decimal_value(digits) as int) as u8,
            ),
        ),
        parse_brightness(seq!['-'] + digits) == Ok::<Adjustment, BrightnessError>(
            Adjustment::Relative(
                Direction::Decrement,
                scale_percent(decimal_value(digits) as int) as u8,
            ),
        ),
        parse_brightness(digits).unwrap().magnitude() == scale_percent(
            decimal_value(digits) as int,
        ),
        parse_brightness(seq!['+'] + digits).unwrap().magnitude() == scale_percent(
            decimal_value(digits) as int,
        ),
        parse_brightness(seq!['-'] + digits).unwrap().magnitude() == scale_percent(
            decimal_value(digits) as int,
        ),
{
    lemma_scale_percent_nearest(decimal_value(digits) as int);
    assert(is_digit(digits[0]));
    assert(sign_len(digits) == 0);
    assert(digits.subrange(0, digits.len() as int) =~= digits);
    let plus = seq!['+'] + digits;
    assert(plus[0] == '+');
    assert(plus.subrange(1, plus.len() as int) =~= digits);
    let minus = seq!['-'] + digits;
    assert(minus[0] == '-');
    assert(minus.subrange(1, minus.len() as int) =~= digits);
}

/// A brightness argument is accepted exactly when what follows its optional sign
/// is one or more digits that denote at most 100. Digits that denote more are out
/// of range; anything else is malformed, the empty argument and a second sign
/// included.
pub proof fn lemma_brightness_rejections(s: Seq<char>)
    ensures
        parse_brightness(s) is Ok <==> {
            let digits = s.subrange(sign_len(s), s.len() as int);
            digits.len() > 0 && all_digits(digits) && decimal_value(digits) <= 100
        },
        parse_brightness(s) == Err::<Adjustment, BrightnessError>(BrightnessError::OutOfRange) <==> {
            let digits = s.subrange(sign_len(s), s.len() as int);
            digits.len() > 0 && all_digits(digits) && decimal_value(digits) > 100
        },
        s.len() == 0 ==> parse_brightness(s) == Err::<Adjustment, BrightnessError>(
            BrightnessError::Malformed,
        ),
        s.len() >= 2 && (s[1] == '+' || s[1] == '-') ==> parse_brightness(s) == Err::<
            Adjustment,
            BrightnessError,
        >(BrightnessError::Malformed),
{
    if s.len() >= 2 && (s[1] == '+' || s[1] == '-') {
        let digits = s.subrange(sign_len(s), s.len() as int);
        if sign_len(s) == 1 {
            assert(digits[0] == s[1]);
            assert(!is_digit(digits[0]));
        } else {
            assert(digits[1] == s[1]);
            assert(!is_digit(digits[1]));
        }
    }
}

} // verus!
