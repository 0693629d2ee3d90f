//! Game settings and their derivation from command-line option values.
//!
//! The option plumbing itself lives elsewhere; this module owns the
//! logic: the defaults, a decimal parser, and the exact rule mapping the
//! five option values to a settings record or to the first bad one.
use vstd::prelude::*;
use vstd::string::StrSliceExecFns;

verus! {

/// The window, map and frame-rate settings the game starts with.
#[derive(Clone, Copy, PartialEq, Eq, Structural, Debug)]
pub struct GameSettings {
    pub is_fullscreen: bool,
    pub width: u32,
    pub height: u32,
    pub map: u32,
    pub fps: u32,
}

impl GameSettings {
    pub open spec fn spec_default() -> GameSettings {
        GameSettings { is_fullscreen: false, width: 640, height: 480, map: 1, fps: 60 }
    }
}

impl Default for GameSettings {
    /// A 640 by 480 window, the first map, 60 frames per second.
    fn default() -> (r: GameSettings)
        ensures
            r == GameSettings::spec_default(),
    {
        GameSettings { is_fullscreen: false, width: 640, height: 480, map: 1, fps: 60 }
    }
}

/// Which of the numeric options failed to parse.
#[derive(Clone, Copy, PartialEq, Eq, Structural, Debug)]
pub enum SettingsError {
    BadWidth,
    BadHeight,
    BadMap,
    BadFps,
}

pub open spec fn is_decimal_digit(c: char) -> bool {
    '0' <= c && c <= '9'
}

pub open spec fn digit_value(c: char) -> int {
    c as int - '0' as int
}

pub open spec fn all_decimal_digits(s: Seq<char>) -> bool {
    forall|i: int| 0 <= i < s.len() ==> is_decimal_digit(#[trigger] s[i])
}

/// The number a digit string denotes, most significant digit first.
pub open spec fn decimal_value(s: Seq<char>) -> int
    decreases s.len(),
{
    if s.len() == 0 {
        0
    } else {
        decimal_value(s.drop_last()) * 10 + digit_value(s.last())
    }
}

/// The digits a numeric argument denotes: the whole string, or what
/// follows a single leading plus sign.
pub open spec fn spec_digit_part(s: Seq<char>) -> Seq<char> {
    if s.len() > 0 && s[0] == '+' {
        s.subrange(1, s.len() as int)
    } else {
        s
    }
}

/// What parsing a string as a `u32` yields: the number denoted by a
/// nonempty all-digit string (at most one leading plus sign allowed)
/// whose value fits, nothing otherwise.
pub open spec fn spec_parse_u32(s: Seq<char>) -> Option<u32> {
    let digits = spec_digit_part(s);
    if digits.len() > 0 && all_decimal_digits(digits) && decimal_value(digits) <= u32::MAX {
        Option::Some(decimal_value(digits) as u32)
    } else {
        Option::None
    }
}

proof fn lemma_decimal_value_nonneg(s: Seq<char>)
    requires
        all_decimal_digits(s),
    ensures
        decimal_value(s) >= 0,
    decreases s.len(),
{
    if s.len() > 0 {
        assert(all_decimal_digits(s.drop_last())) by {
            assert(forall|i: int|
                0 <= i < s.len() - 1 ==> #[trigger] s.drop_last()[i] == s[i]);
        }
        lemma_decimal_value_nonneg(s.drop_last());
    }
}

/// A longer all-digit string never denotes a smaller number: the value
/// of any prefix bounds the value of the whole from below.
proof fn lemma_decimal_prefix_le(s: Seq<char>, i: int)
    requires
        all_decimal_digits(s),
        0 <= i <= s.len(),
    ensures
        decimal_value(s.take(i)) <= decimal_value(s),
    decreases s.len() - i,
{
    if i < s.len() {
        lemma_decimal_prefix_le(s, i + 1);
        let t = s.take(i + 1);
        assert(t.drop_last() =~= s.take(i));
        assert(all_decimal_digits(s.take(i))) by {
            assert(forall|k: int| 0 <= k < i ==> #[trigger] s.take(i)[k] == s[k]);
        }
        lemma_decimal_value_nonneg(s.take(i));
        assert(decimal_value(t) == decimal_value(s.take(i)) * 10 + digit_value(s[i]));
        assert(decimal_value(s.take(i)) * 10 >= decimal_value(s.take(i))) by (nonlinear_arith)
            requires
                decimal_value(s.take(i)) >= 0;
    } else {
        assert(s.take(i) =~= s);
    }
}

/// Parse a decimal digit string, with at most one leading plus sign, as
/// a `u32`; anything else, including a value beyond `u32::MAX`, yields
/// nothing.
pub fn parse_u32(s: &str) -> (r: Option<u32>)
    ensures
        r == spec_parse_u32(s@),
{
    let n = s.unicode_len();
    let start: usize = if n > 0 && s.get_char(0) == '+' {
        1
    } else {
        0
    };
    let ghost digits = spec_digit_part(s@);
    proof {
        assert(digits.len() == n - start);
        assert(forall|k: int|
            0 <= k < digits.len() ==> #[trigger] digits[k] == s@[k + start]);
    }
    if n == start {
        return Option::None;
    }
    let mut acc: u64 = 0;
    let mut i: usize = start;
    while i < n
        invariant
            start <= i <= n,
            start < n == s@.len(),
            digits == spec_digit_part(s@),
            digits.len() == n - start,
            forall|k: int| 0 <= k < digits.len() ==> #[trigger] digits[k] == s@[k + start],
            all_decimal_digits(digits.take(i as int - start as int)),
            acc == decimal_value(digits.take(i as int - start as int)),
            acc <= u32::MAX,
        decreases n - i,
    {
        let c = s.get_char(i);
        if c < '0' || c > '9' {
            assert(digits[i as int - start as int] == s@[i as int]);
            assert(!is_decimal_digit(digits[i as int - start as int]));
            return Option::None;
        }
        let d: u64 = (c as u32 as u64) - 48;
        let next: u64 = acc * 10 + d;
        proof {
            let t1 = digits.take(i as int - start as int + 1);
            assert(t1.drop_last() =~= digits.take(i as int - start as int));
            assert(t1.last() == digits[i as int - start as int]);
            assert(digits[i as int - start as int] == s@[i as int]);
            assert(all_decimal_digits(t1)) by {
                assert(forall|k: int|
                    0 <= k < i as int - start as int ==> #[trigger] t1[k] == digits.take(
                        i as int - start as int,
                    )[k]);
            }
            assert(next == decimal_value(t1));
        }
        if next > 0xffff_ffff {
            proof {
                if all_decimal_digits(digits) {
                    lemma_decimal_prefix_le(digits, i as int - start as int + 1);
                }
            }
            return Option::None;
        }
        acc = next;
        i = i + 1;
    }
    proof {
        assert(digits.take(n as int - start as int) =~= digits);
    }
    Option::Some(acc as u32)
}

/// What one optional numeric argument does to a default: absent keeps
/// the default, present it must parse.
pub open spec fn spec_numeric_option(cur: u32, o: Option<Seq<char>>) -> Option<u32> {
    match o {
        Option::None => Option::Some(cur),
        Option::Some(s) => spec_parse_u32(s),
    }
}

pub open spec fn opt_view(o: Option<String>) -> Option<Seq<char>> {
    match o {
        Option::None => Option::None,
        Option::Some(s) => Option::Some(s@),
    }
}

/// The settings denoted by the five option values, or the first bad
/// numeric value in the fixed option order: width, height, map, fps.
pub open spec fn spec_settings_from_options(
    fullscreen: bool,
    width: Option<Seq<char>>,
    height: Option<Seq<char>>,
    map: Option<Seq<char>>,
    fps: Option<Seq<char>>,
) -> Result<GameSettings, SettingsError> {
    let d = GameSettings::spec_default();
    if spec_numeric_option(d.width, width) is None {
        Result::Err(SettingsError::BadWidth)
    } else if spec_numeric_option(d.height, height) is None {
        Result::Err(SettingsError::BadHeight)
    } else if spec_numeric_option(d.map, map) is None {
        Result::Err(SettingsError::BadMap)
    } else if spec_numeric_option(d.fps, fps) is None {
        Result::Err(SettingsError::BadFps)
    } else {
        Result::Ok(
            GameSettings {
                is_fullscreen: fullscreen,
                width: spec_numeric_option(d.width, width).unwrap(),
                height: spec_numeric_option(d.height, height).unwrap(),
                map: spec_numeric_option(d.map, map).unwrap(),
                fps: spec_numeric_option(d.fps, fps).unwrap(),
            },
        )
    }
}

/// Build the settings from the command line's option values: the flag
/// state and the four optional numeric arguments. Succeeds exactly when
/// every present numeric argument is a decimal `u32` (with at most one
/// leading plus sign).
pub fn settings_from_options(
    fullscreen: bool,
    width: Option<String>,
    height: Option<String>,
    map: Option<String>,
    fps: Option<String>,
) -> (r: Result<GameSettings, SettingsError>)
    ensures
        r == spec_settings_from_options(
            fullscreen,
            opt_view(width),
            opt_view(height),
            opt_view(map),
            opt_view(fps),
        ),
{
    let mut settings = GameSettings {
        is_fullscreen: fullscreen,
        width: 640,
        height: 480,
        map: 1,
        fps: 60,
    };
    match width {
        Option::None => {},
        Option::Some(s) => {
            match parse_u32(s.as_str()) {
                Option::None => {
                    return Result::Err(SettingsError::BadWidth);
                },
                Option::Some(v) => {
                    settings.width = v;
                },
            }
        },
    }
    match height {
        Option::None => {},
        Option::Some(s) => {
            match parse_u32(s.as_str()) {
                Option::None => {
                    return Result::Err(SettingsError::BadHeight);
                },
                Option::Some(v) => {
                    settings.height = v;
                },
            }
        },
    }
    match map {
        Option::None => {},
        Option::Some(s) => {
            match parse_u32(s.as_str()) {
                Option::None => {
                    return Result::Err(SettingsError::BadMap);
                },
                Option::Some(v) => {
                    settings.map = v;
                },
            }
        },
    }
    match fps {
        Option::None => {},
        Option::Some(s) => {
            match parse_u32(s.as_str()) {
                Option::None => {
                    return Result::Err(SettingsError::BadFps);
                },
                Option::Some(v) => {
                    settings.fps = v;
                },
            }
        },
    }
    Result::Ok(settings)
}

} // verus!
