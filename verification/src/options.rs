//! Output stream options and the forced color level derived from the
//! `FORCE_COLOR` environment variable and from command-line flags.

use vstd::prelude::*;

use crate::colors::{spec_level_from_u32, ColorSupportLevel};
use crate::strutil::{
    count_leading_dashes, lower_of, lowercase, parse_u32_str, spec_parse_u32, str_eq,
    strip_dashes,
};
use vstd::string::StrSliceExecFns;

verus! {

/// The options of an output stream.
pub struct OutputStreamOptions {
    /// Specifies whether the output stream is a TTY.
    pub is_tty: bool,
    /// Specifies whether to sniff flags.
    pub sniff_flags: bool,
}

impl OutputStreamOptions {
    /// Creates a new `OutputStreamOptions` instance; an absent value means
    /// "not a TTY" and "do sniff flags".
    pub fn new(is_tty: Option<bool>, sniff_flags: Option<bool>) -> (r: Self)
        ensures
            r.is_tty == (is_tty is Some && is_tty->0),
            r.sniff_flags == (sniff_flags is None || sniff_flags->0),
    {
        OutputStreamOptions {
            is_tty: is_tty.unwrap_or(false),
            sniff_flags: sniff_flags.unwrap_or(true),
        }
    }
}

/// Whether a single argument matches a flag name: leading dashes are stripped
/// from both sides and the argument is lowercased (per `str::to_lowercase`,
/// named by `lower_of`), then the two must be equal, the whole token at once.
pub open spec fn arg_matches_flag(arg: Seq<char>, flag: Seq<char>) -> bool {
    lower_of(strip_dashes(arg)) == strip_dashes(flag)
}

/// Whether some argument matches the flag name.
pub open spec fn spec_has_flag(flag: Seq<char>, args: Seq<Seq<char>>) -> bool {
    exists|i: int| 0 <= i < args.len() && #[trigger] arg_matches_flag(args[i], flag)
}

/// Whether `arg` matches `flag`, following `arg_matches_flag`.
fn arg_matches(arg: &str, flag: &str) -> (r: bool)
    ensures
        r == arg_matches_flag(arg@, flag@),
{
    let a_dashes = count_leading_dashes(arg);
    let a_len = arg.unicode_len();
    let arg_stripped = arg.substring_char(a_dashes, a_len);
    proof {
        assert(arg_stripped@ =~= strip_dashes(arg@));
    }
    let arg_lowered = lowercase(arg_stripped);

    let f_dashes = count_leading_dashes(flag);
    let f_len = flag.unicode_len();
    let flag_stripped = flag.substring_char(f_dashes, f_len);
    proof {
        assert(flag_stripped@ =~= strip_dashes(flag@));
    }

    str_eq(arg_lowered.as_str(), flag_stripped)
}

/// Checks whether a given command-line flag is present among the arguments.
pub fn has_flag(flag: &str, args: &Vec<String>) -> (r: bool)
    ensures
        r == spec_has_flag(flag@, args.deep_view()),
{
    let n = args.len();
    let mut i: usize = 0;
    while i < n
        invariant
            i <= n,
            n == args@.len(),
            forall|j: int| 0 <= j < i ==> !arg_matches_flag(#[trigger] args.deep_view()[j], flag@),
        decreases n - i,
    {
        if arg_matches(args[i].as_str(), flag) {
            proof {
                assert(arg_matches_flag(args.deep_view()[i as int], flag@));
            }
            return true;
        }
        i += 1;
    }
    false
}

/// The color level the `FORCE_COLOR` environment variable forces, if any:
/// `"true"` and the empty string force `Basic`, `"false"` forces `NoColor`,
/// a base-10 number in 0..=3 forces the level of that number, and every
/// other value (absent, non-numeric, or numeric outside 0..=3) forces
/// nothing.
pub open spec fn spec_force_color_level(force_color: Option<Seq<char>>) -> Option<
    ColorSupportLevel,
> {
    match force_color {
        Option::None => Option::None,
        Option::Some(s) => {
            if s == "true"@ {
                Some(ColorSupportLevel::Basic)
            } else if s == "false"@ {
                Some(ColorSupportLevel::NoColor)
            } else if s.len() == 0 {
                Some(ColorSupportLevel::Basic)
            } else {
                match spec_parse_u32(s) {
                    Option::Some(level) => spec_level_from_u32(level),
                    Option::None => Option::None,
                }
            }
        },
    }
}

/// The view of an optional string slice.
pub open spec fn opt_str_view(s: Option<&str>) -> Option<Seq<char>> {
    match s {
        Option::Some(x) => Option::Some(x@),
        Option::None => Option::None,
    }
}

/// Extracts the color support level that the raw value of the `FORCE_COLOR`
/// environment variable forces; `None` stands for an unset variable.
pub fn extract_force_color_level_from_env(force_color: Option<&str>) -> (r: Option<
    ColorSupportLevel,
>)
    ensures
        r == spec_force_color_level(opt_str_view(force_color)),
{
    match force_color {
        Option::None => Option::None,
        Option::Some(s) => {
            if str_eq(s, "true") {
                Some(ColorSupportLevel::Basic)
            } else if str_eq(s, "false") {
                Some(ColorSupportLevel::NoColor)
            } else if s.unicode_len() == 0 {
                Some(ColorSupportLevel::Basic)
            } else {
                match parse_u32_str(s) {
                    Option::Some(level) => ColorSupportLevel::from_u32(level),
                    Option::None => Option::None,
                }
            }
        },
    }
}

/// Whether the arguments hold a token that forces colors off.
pub open spec fn spec_flag_force_off(args: Seq<Seq<char>>) -> bool {
    ||| spec_has_flag("no-color"@, args)
    ||| spec_has_flag("no-colors"@, args)
    ||| spec_has_flag("color=false"@, args)
    ||| spec_has_flag("color=never"@, args)
}

/// Whether the arguments hold a token that forces colors on.
pub open spec fn spec_flag_force_on(args: Seq<Seq<char>>) -> bool {
    ||| spec_has_flag("color"@, args)
    ||| spec_has_flag("colors"@, args)
    ||| spec_has_flag("color=true"@, args)
    ||| spec_has_flag("color=always"@, args)
}

/// The color level the command-line flags force, if any: a "force off" token
/// gives `NoColor` whatever else is present, otherwise a "force on" token
/// gives `Basic`, and otherwise the flags force nothing.
pub open spec fn spec_flag_color_level(args: Seq<Seq<char>>) -> Option<ColorSupportLevel> {
    if spec_flag_force_off(args) {
        Some(ColorSupportLevel::NoColor)
    } else if spec_flag_force_on(args) {
        Some(ColorSupportLevel::Basic)
    } else {
        Option::None
    }
}

/// Extracts the color support level forced by command-line flags such as
/// `--color` or `--no-color`.
pub fn extract_color_level_from_flags(args: &Vec<String>) -> (r: Option<ColorSupportLevel>)
    ensures
        r == spec_flag_color_level(args.deep_view()),
{
    if has_flag("no-color", args) || has_flag("no-colors", args) || has_flag("color=false", args)
        || has_flag("color=never", args) {
        Some(ColorSupportLevel::NoColor)
    } else if has_flag("color", args) || has_flag("colors", args) || has_flag("color=true", args)
        || has_flag("color=always", args) {
        Some(ColorSupportLevel::Basic)
    } else {
        Option::None
    }
}

/// A "force off" token wins: when the arguments hold one, the flag rule
/// yields `NoColor`, whatever "force on" tokens are also present and in
/// whatever order the tokens stand.
pub proof fn lemma_force_off_flag_wins(args: Seq<Seq<char>>)
    requires
        spec_flag_force_off(args),
    ensures
        spec_flag_color_level(args) == Some(ColorSupportLevel::NoColor),
{
}

} // verus!
