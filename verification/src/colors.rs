//! Color support levels, the per-stream capability summary, and the resolver
//! that orders flag, environment and terminal-signature rules.

use vstd::prelude::*;

use crate::environment::{spec_environment_level, Environment, EnvironmentView};
use crate::options::{
    extract_color_level_from_flags, extract_force_color_level_from_env, has_flag, opt_str_view,
    spec_flag_color_level, spec_force_color_level, spec_has_flag, OutputStreamOptions,
};

verus! {

/// The level of color support of a terminal, totally ordered by capability:
/// `NoColor < Basic < Colors256 < TrueColor`.
#[derive(Debug, PartialEq, Eq, Structural, Clone, Copy)]
pub enum ColorSupportLevel {
    /// No color support.
    NoColor,
    /// Basic 16-color support.
    Basic,
    /// Support for 256 colors.
    Colors256,
    /// True color (24-bit, 16 million colors) support.
    TrueColor,
}

/// The numeric mapping of a level: 0, 1, 2 or 3.
pub open spec fn spec_level_number(level: ColorSupportLevel) -> u32 {
    match level {
        ColorSupportLevel::NoColor => 0,
        ColorSupportLevel::Basic => 1,
        ColorSupportLevel::Colors256 => 2,
        ColorSupportLevel::TrueColor => 3,
    }
}

/// The level a number stands for; numbers outside 0..=3 stand for no level.
pub open spec fn spec_level_from_u32(level: u32) -> Option<ColorSupportLevel> {
    if level == 0 {
        Some(ColorSupportLevel::NoColor)
    } else if level == 1 {
        Some(ColorSupportLevel::Basic)
    } else if level == 2 {
        Some(ColorSupportLevel::Colors256)
    } else if level == 3 {
        Some(ColorSupportLevel::TrueColor)
    } else {
        None
    }
}

impl ColorSupportLevel {
    /// Converts a `u32` value to a `ColorSupportLevel`; values outside 0..=3
    /// are invalid and yield `None`.
    pub fn from_u32(level: u32) -> (r: Option<ColorSupportLevel>)
        ensures
            r == spec_level_from_u32(level),
    {
        match level {
            0 => Some(ColorSupportLevel::NoColor),
            1 => Some(ColorSupportLevel::Basic),
            2 => Some(ColorSupportLevel::Colors256),
            3 => Some(ColorSupportLevel::TrueColor),
            _ => None,
        }
    }
}

/// Numeric round trip: every level comes back from its own number, and a
/// number outside 0..=3 parses to no level at all.
pub proof fn lemma_level_number_round_trip(level: ColorSupportLevel, n: u32)
    ensures
        spec_level_from_u32(spec_level_number(level)) == Some(level),
        n > 3 ==> spec_level_from_u32(n) is None,
{
}

/// Color support information derived from a level.
#[derive(Debug, PartialEq, Eq, Structural, Clone, Copy)]
pub struct ColorInfo {
    /// The color support level.
    pub level: ColorSupportLevel,
    /// Indicates if basic color support is available.
    pub has_basic: bool,
    /// Indicates if 256-color support is available.
    pub has_256: bool,
    /// Indicates if true color support (16 million colors) is available.
    pub has_16m: bool,
}

/// The capability summary a level determines: each boolean says whether the
/// level reaches that capability.
pub open spec fn spec_color_info(level: ColorSupportLevel) -> ColorInfo {
    ColorInfo {
        level,
        has_basic: level != ColorSupportLevel::NoColor,
        has_256: level == ColorSupportLevel::Colors256 || level == ColorSupportLevel::TrueColor,
        has_16m: level == ColorSupportLevel::TrueColor,
    }
}

impl ColorInfo {
    /// Creates a new `ColorInfo` instance based on the provided color support
    /// level.
    pub fn new(level: ColorSupportLevel) -> (r: Self)
        ensures
            r == spec_color_info(level),
    {
        let (has_basic, has_256, has_16m) = match level {
            ColorSupportLevel::NoColor => (false, false, false),
            ColorSupportLevel::Basic => (true, false, false),
            ColorSupportLevel::Colors256 => (true, true, false),
            ColorSupportLevel::TrueColor => (true, true, true),
        };

        ColorInfo { level, has_basic, has_256, has_16m }
    }
}

/// The derived booleans are monotone: 256-color support implies basic
/// support, and true-color support implies 256-color support.
pub proof fn lemma_color_info_monotonic(level: ColorSupportLevel)
    ensures
        spec_color_info(level).has_256 ==> spec_color_info(level).has_basic,
        spec_color_info(level).has_16m ==> spec_color_info(level).has_256,
{
}

/// Color support information for the standard output and standard error
/// streams of a process.
#[derive(Debug, PartialEq, Eq, Structural, Clone, Copy)]
pub struct ColorSupport {
    /// Color support information for the standard output stream.
    pub stdout: ColorInfo,
    /// Color support information for the standard error stream.
    pub stderr: ColorInfo,
}

/// Whether the arguments hold a token that asks for true color.
pub open spec fn spec_true_color_flag(args: Seq<Seq<char>>) -> bool {
    ||| spec_has_flag("color=16m"@, args)
    ||| spec_has_flag("color=full"@, args)
    ||| spec_has_flag("color=truecolor"@, args)
}

/// The level forced by the environment variable and the flags together: an
/// explicit `FORCE_COLOR` value is final; only when it is absent, and flag
/// sniffing is on, do the flags speak.
pub open spec fn spec_forced_level(
    sniff_flags: bool,
    args: Seq<Seq<char>>,
    force_color: Option<Seq<char>>,
) -> Option<ColorSupportLevel> {
    let env_forced = spec_force_color_level(force_color);
    if env_forced is Some {
        env_forced
    } else if sniff_flags {
        spec_flag_color_level(args)
    } else {
        Option::None
    }
}

/// The level a stream resolves to: the forced level when there is one; else
/// an explicit `color=...` depth flag when sniffing is on; else `NoColor` for
/// a stream that is not a TTY; else the terminal-signature level.
pub open spec fn spec_resolve_level(
    is_tty: bool,
    sniff_flags: bool,
    args: Seq<Seq<char>>,
    force_color: Option<Seq<char>>,
    env: EnvironmentView,
) -> ColorSupportLevel {
    let forced = spec_forced_level(sniff_flags, args, force_color);
    if forced is Some {
        forced->0
    } else if sniff_flags && spec_true_color_flag(args) {
        ColorSupportLevel::TrueColor
    } else if sniff_flags && spec_has_flag("color=256"@, args) {
        ColorSupportLevel::Colors256
    } else if !is_tty {
        ColorSupportLevel::NoColor
    } else {
        spec_environment_level(env)
    }
}

/// Determines the color support level for a stream from the given options,
/// command-line arguments, raw `FORCE_COLOR` value (`None` when unset) and
/// environment snapshot, following `spec_resolve_level`.
pub fn determine_stream_color_level(
    options: OutputStreamOptions,
    args: &Vec<String>,
    force_color: Option<&str>,
    environment: &Environment,
) -> (r: Option<ColorSupportLevel>)
    ensures
        r == Some(
            spec_resolve_level(
                options.is_tty,
                options.sniff_flags,
                args.deep_view(),
                opt_str_view(force_color),
                environment@,
            ),
        ),
{
    let force_color_level_from_env = extract_force_color_level_from_env(force_color);

    let forced = if force_color_level_from_env.is_some() {
        force_color_level_from_env
    } else if options.sniff_flags {
        extract_color_level_from_flags(args)
    } else {
        Option::None
    };

    if forced.is_some() {
        return forced;
    }

    if options.sniff_flags {
        if has_flag("color=16m", args) || has_flag("color=full", args) || has_flag(
            "color=truecolor",
            args,
        ) {
            return Some(ColorSupportLevel::TrueColor);
        }
        if has_flag("color=256", args) {
            return Some(ColorSupportLevel::Colors256);
        }
    }

    if !options.is_tty {
        return Some(ColorSupportLevel::NoColor);
    }

    Some(environment.determine_color_level())
}

/// An explicit `FORCE_COLOR` value is final: whatever the flags, the TTY
/// status and the terminal signatures say, the stream resolves to the level
/// the environment variable forces.
pub proof fn lemma_env_force_is_final(
    is_tty: bool,
    sniff_flags: bool,
    args: Seq<Seq<char>>,
    force_color: Option<Seq<char>>,
    env: EnvironmentView,
)
    requires
        spec_force_color_level(force_color) is Some,
    ensures
        spec_resolve_level(is_tty, sniff_flags, args, force_color, env)
            == spec_force_color_level(force_color)->0,
{
}

/// TTY gating: a stream that is not a TTY resolves to `NoColor` when nothing
/// forces a level and no explicit depth flag matches.
pub proof fn lemma_non_tty_defaults_to_no_color(
    sniff_flags: bool,
    args: Seq<Seq<char>>,
    force_color: Option<Seq<char>>,
    env: EnvironmentView,
)
    requires
        spec_force_color_level(force_color) is None,
        sniff_flags ==> spec_flag_color_level(args) is None,
        sniff_flags ==> !spec_true_color_flag(args),
        sniff_flags ==> !spec_has_flag("color=256"@, args),
    ensures
        spec_resolve_level(false, sniff_flags, args, force_color, env)
            == ColorSupportLevel::NoColor,
{
}

} // verus!
