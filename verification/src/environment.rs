//! The environment snapshot and the terminal-signature rule that derives a
//! color support level from it.

use vstd::prelude::*;

use crate::colors::ColorSupportLevel;
use crate::strutil::{
    contains_str, count_leading_digits, digit_count, ends_with_str, find_char_from,
    first_index_of, lemma_first_index_of_is, parse_u32_str, spec_contains_seq, spec_ends_with,
    spec_parse_u32, spec_starts_with, starts_with_str, str_eq,
};
use vstd::string::StrSliceExecFns;

verus! {

/// A read-only snapshot of the environment details a resolution looks at.
/// Every field is captured once, before the rules run, so the rules are pure
/// functions of this struct.
pub struct Environment {
    /// Terminal type (the `TERM` variable; empty if unset).
    pub term: String,
    /// Color terminal (the `COLORTERM` variable).
    pub colorterm: Option<String>,
    /// TeamCity version (the `TEAMCITY_VERSION` variable).
    pub teamcity_version: Option<String>,
    /// Continuous Integration platform (the `CI` variable).
    pub ci: Option<String>,
    /// Operating system release, as a dot-separated version string.
    pub os_release: String,
    /// Terminal program (the `TERM_PROGRAM` variable).
    pub term_program: Option<String>,
    /// Terminal program version (the `TERM_PROGRAM_VERSION` variable; empty
    /// if unset).
    pub term_program_version: String,
    /// Whether the platform family is Windows.
    pub is_windows: bool,
    /// Whether the `AGENT_NAME` variable is set.
    pub agent_name_present: bool,
}

/// The mathematical view of an environment snapshot: each string as its
/// character sequence.
pub ghost struct EnvironmentView {
    pub term: Seq<char>,
    pub colorterm: Option<Seq<char>>,
    pub teamcity_version: Option<Seq<char>>,
    pub ci: Option<Seq<char>>,
    pub os_release: Seq<char>,
    pub term_program: Option<Seq<char>>,
    pub term_program_version: Seq<char>,
    pub is_windows: bool,
    pub agent_name_present: bool,
}

/// The view of an optional owned string.
pub open spec fn opt_string_view(s: Option<String>) -> Option<Seq<char>> {
    match s {
        Option::Some(x) => Option::Some(x@),
        Option::None => Option::None,
    }
}

impl View for Environment {
    type V = EnvironmentView;

    open spec fn view(&self) -> EnvironmentView {
        EnvironmentView {
            term: self.term@,
            colorterm: opt_string_view(self.colorterm),
            teamcity_version: opt_string_view(self.teamcity_version),
            ci: opt_string_view(self.ci),
            os_release: self.os_release@,
            term_program: opt_string_view(self.term_program),
            term_program_version: self.term_program_version@,
            is_windows: self.is_windows,
            agent_name_present: self.agent_name_present,
        }
    }
}

/// What a version-string part contributes: its base-10 value, or 0 when it
/// does not parse as a `u32`.
pub open spec fn spec_part_value(part: Seq<char>) -> u32 {
    match spec_parse_u32(part) {
        Option::Some(v) => v,
        Option::None => 0,
    }
}

/// The dot-separated parts of a version string, each parsed with
/// `spec_part_value`; a string without dots is one single part.
pub open spec fn spec_release_parts(s: Seq<char>) -> Seq<u32>
    decreases s.len(),
{
    let d = first_index_of(s, '.');
    if d == s.len() {
        seq![spec_part_value(s)]
    } else if 0 <= d < s.len() {
        seq![spec_part_value(s.take(d))] + spec_release_parts(s.skip(d + 1))
    } else {
        // first_index_of stays within bounds; this branch is never taken.
        Seq::empty()
    }
}

/// The color level the Windows rule gives: the major version and the third
/// part of the OS release decide; missing parts count as 0.
pub open spec fn spec_windows_level(os_release: Seq<char>) -> ColorSupportLevel {
    let parts = spec_release_parts(os_release);
    let major = if parts.len() > 0 {
        parts[0]
    } else {
        0u32
    };
    let third = if parts.len() > 2 {
        parts[2]
    } else {
        0u32
    };
    if major >= 10 && third >= 10586 {
        if third >= 14931 {
            ColorSupportLevel::TrueColor
        } else {
            ColorSupportLevel::Colors256
        }
    } else {
        ColorSupportLevel::Basic
    }
}

/// Whether a TeamCity version string announces color support: the string
/// starts with `9.` followed by characters that are not all `0`, or its
/// leading number has two or more digits followed by a dot.
pub open spec fn spec_teamcity_matches(s: Seq<char>) -> bool {
    ||| (s.len() >= 2 && s[0] == '9' && s[1] == '.' && exists|i: int|
        2 <= i < s.len() && #[trigger] s[i] != '0')
    ||| (digit_count(s) >= 2 && digit_count(s) < s.len() && s[digit_count(s)] == '.')
}

/// The major version ahead of the first dot, when it parses as a `u32`.
pub open spec fn spec_version_major(s: Seq<char>) -> Option<u32> {
    spec_parse_u32(s.take(first_index_of(s, '.')))
}

/// The color level the terminal-signature rules give: an ordered decision
/// list, first match wins, falling back to `NoColor`.
pub open spec fn spec_environment_level(e: EnvironmentView) -> ColorSupportLevel {
    if e.term == "dumb"@ {
        ColorSupportLevel::NoColor
    } else if e.is_windows {
        spec_windows_level(e.os_release)
    } else if e.ci is Some {
        if e.ci->0 == "TF_BUILD"@ && e.agent_name_present {
            ColorSupportLevel::Basic
        } else {
            ColorSupportLevel::NoColor
        }
    } else if e.teamcity_version is Some {
        if spec_teamcity_matches(e.teamcity_version->0) {
            ColorSupportLevel::Basic
        } else {
            ColorSupportLevel::NoColor
        }
    } else if e.colorterm is Some && e.colorterm->0 == "truecolor"@ {
        ColorSupportLevel::TrueColor
    } else if e.term == "xterm-kitty"@ {
        ColorSupportLevel::TrueColor
    } else if e.term_program is Some && spec_version_major(e.term_program_version) is Some
        && e.term_program->0 == "iTerm.app"@ {
        if spec_version_major(e.term_program_version)->0 >= 3 {
            ColorSupportLevel::TrueColor
        } else {
            ColorSupportLevel::Colors256
        }
    } else if e.term_program is Some && spec_version_major(e.term_program_version) is Some
        && e.term_program->0 == "Apple_Terminal"@ {
        ColorSupportLevel::Colors256
    } else if spec_ends_with(e.term, "-256color"@) {
        ColorSupportLevel::Colors256
    } else if spec_starts_with(e.term, "screen"@) || spec_starts_with(e.term, "xterm"@)
        || spec_starts_with(e.term, "vt100"@) || spec_starts_with(e.term, "vt220"@)
        || spec_starts_with(e.term, "rxvt"@) || spec_contains_seq(e.term, "color"@)
        || spec_contains_seq(e.term, "ansi"@) || spec_contains_seq(e.term, "cygwin"@)
        || spec_contains_seq(e.term, "linux"@) {
        ColorSupportLevel::Basic
    } else if e.colorterm is Some && e.colorterm->0.len() > 0 {
        ColorSupportLevel::Basic
    } else {
        ColorSupportLevel::NoColor
    }
}

impl Environment {
    /// Builds a snapshot from the given values; an absent value stands for an
    /// unset variable (an empty string for `term`, `os_release` and
    /// `term_program_version`). The platform is taken as non-Windows and
    /// `AGENT_NAME` as unset; the caller sets those fields for other
    /// platforms.
    pub fn new(
        term: Option<String>,
        colorterm: Option<String>,
        teamcity_version: Option<String>,
        ci: Option<String>,
        os_release: Option<String>,
        term_program: Option<String>,
        term_program_version: Option<String>,
    ) -> (r: Self)
        ensures
            r@.term == (if term is Some {
                term->0@
            } else {
                Seq::<char>::empty()
            }),
            r@.colorterm == opt_string_view(colorterm),
            r@.teamcity_version == opt_string_view(teamcity_version),
            r@.ci == opt_string_view(ci),
            r@.os_release == (if os_release is Some {
                os_release->0@
            } else {
                Seq::<char>::empty()
            }),
            r@.term_program == opt_string_view(term_program),
            r@.term_program_version == (if term_program_version is Some {
                term_program_version->0@
            } else {
                Seq::<char>::empty()
            }),
            !r@.is_windows,
            !r@.agent_name_present,
    {
        Environment {
            term: match term {
                Option::Some(t) => t,
                Option::None => String::new(),
            },
            colorterm,
            teamcity_version,
            ci,
            os_release: match os_release {
                Option::Some(o) => o,
                Option::None => String::new(),
            },
            term_program,
            term_program_version: match term_program_version {
                Option::Some(v) => v,
                Option::None => String::new(),
            },
            is_windows: false,
            agent_name_present: false,
        }
    }

    /// The empty snapshot: every variable unset, a non-Windows platform.
    pub fn default() -> (r: Self)
        ensures
            r@.term == Seq::<char>::empty(),
            r@.colorterm is None,
            r@.teamcity_version is None,
            r@.ci is None,
            r@.os_release == Seq::<char>::empty(),
            r@.term_program is None,
            r@.term_program_version == Seq::<char>::empty(),
            !r@.is_windows,
            !r@.agent_name_present,
    {
        Self::new(
            Option::None,
            Option::None,
            Option::None,
            Option::None,
            Option::None,
            Option::None,
            Option::None,
        )
    }

    /// Gets the parts of the OS release version, one number per dot-separated
    /// part; a part that does not parse counts as 0.
    pub fn get_os_release_parts(&self) -> (r: Vec<u32>)
        ensures
            r@ == spec_release_parts(self.os_release@),
    {
        let s: &str = self.os_release.as_str();
        let len = s.unicode_len();
        let mut parts: Vec<u32> = Vec::new();
        let mut pos: usize = 0;
        proof {
            assert(s@.skip(0) =~= s@);
            assert(parts@ + spec_release_parts(s@.skip(0)) =~= spec_release_parts(s@));
        }
        loop
            invariant
                pos <= len,
                len == s@.len(),
                s@ == self.os_release@,
                spec_release_parts(s@) == parts@ + spec_release_parts(s@.skip(pos as int)),
            decreases len - pos,
        {
            let d = find_char_from(s, pos, '.');
            let part = s.substring_char(pos, d);
            let value = match parse_u32_str(part) {
                Option::Some(v) => v,
                Option::None => 0,
            };
            proof {
                let rest = s@.skip(pos as int);
                lemma_first_index_of_is(rest, '.', d - pos);
                assert(rest.take(d - pos) =~= s@.subrange(pos as int, d as int));
                if d < len {
                    assert(rest.skip(d - pos + 1) =~= s@.skip(d + 1));
                } else {
                    assert(rest.take(d - pos) =~= rest);
                }
                assert(part@ == s@.subrange(pos as int, d as int));
            }
            parts.push(value);
            if d == len {
                proof {
                    assert(spec_release_parts(s@.skip(pos as int)) =~= seq![value]);
                    assert(spec_release_parts(s@) =~= parts@);
                }
                return parts;
            }
            proof {
                assert(spec_release_parts(s@) =~= parts@ + spec_release_parts(s@.skip(d + 1)));
            }
            pos = d + 1;
        }
    }

    /// Gets the major version of the terminal program: the part of its
    /// version string ahead of the first dot, when that parses as a number.
    pub fn get_term_program_version_major(&self) -> (r: Option<u32>)
        ensures
            r == spec_version_major(self.term_program_version@),
    {
        let s: &str = self.term_program_version.as_str();
        let d = find_char_from(s, 0, '.');
        let major = s.substring_char(0, d);
        proof {
            lemma_first_index_of_is(s@, '.', d as int);
            assert(major@ =~= s@.take(first_index_of(s@, '.')));
        }
        parse_u32_str(major)
    }

    /// Determines the color support level from the terminal signatures,
    /// following `spec_environment_level`.
    pub fn determine_color_level(&self) -> (r: ColorSupportLevel)
        ensures
            r == spec_environment_level(self@),
    {
        if str_eq(self.term.as_str(), "dumb") {
            return ColorSupportLevel::NoColor;
        }

        if self.is_windows {
            let release_parts = self.get_os_release_parts();
            let major: u32 = if release_parts.len() > 0 {
                release_parts[0]
            } else {
                0
            };
            let third: u32 = if release_parts.len() > 2 {
                release_parts[2]
            } else {
                0
            };
            if major >= 10 && third >= 10586 {
                return if third >= 14931 {
                    ColorSupportLevel::TrueColor
                } else {
                    ColorSupportLevel::Colors256
                };
            }
            return ColorSupportLevel::Basic;
        }

        match &self.ci {
            Option::Some(ci) => {
                if str_eq(ci.as_str(), "TF_BUILD") && self.agent_name_present {
                    return ColorSupportLevel::Basic;
                }
                return ColorSupportLevel::NoColor;
            },
            Option::None => {},
        }

        match &self.teamcity_version {
            Option::Some(teamcity_version) => {
                if teamcity_matches(teamcity_version.as_str()) {
                    return ColorSupportLevel::Basic;
                }
                return ColorSupportLevel::NoColor;
            },
            Option::None => {},
        }

        match &self.colorterm {
            Option::Some(colorterm) => {
                if str_eq(colorterm.as_str(), "truecolor") {
                    return ColorSupportLevel::TrueColor;
                }
            },
            Option::None => {},
        }

        if str_eq(self.term.as_str(), "xterm-kitty") {
            return ColorSupportLevel::TrueColor;
        }

        match &self.term_program {
            Option::Some(term_program) => {
                match self.get_term_program_version_major() {
                    Option::Some(version_major) => {
                        if str_eq(term_program.as_str(), "iTerm.app") {
                            return if version_major >= 3 {
                                ColorSupportLevel::TrueColor
                            } else {
                                ColorSupportLevel::Colors256
                            };
                        }
                        if str_eq(term_program.as_str(), "Apple_Terminal") {
                            return ColorSupportLevel::Colors256;
                        }
                    },
                    Option::None => {},
                }
            },
            Option::None => {},
        }

        if ends_with_str(self.term.as_str(), "-256color") {
            return ColorSupportLevel::Colors256;
        }

        if starts_with_str(self.term.as_str(), "screen") || starts_with_str(
            self.term.as_str(),
            "xterm",
        ) || starts_with_str(self.term.as_str(), "vt100") || starts_with_str(
            self.term.as_str(),
            "vt220",
        ) || starts_with_str(self.term.as_str(), "rxvt") || contains_str(
            self.term.as_str(),
            "color",
        ) || contains_str(self.term.as_str(), "ansi") || contains_str(
            self.term.as_str(),
            "cygwin",
        ) || contains_str(self.term.as_str(), "linux") {
            return ColorSupportLevel::Basic;
        }

        match &self.colorterm {
            Option::Some(colorterm) => {
                if colorterm.as_str().unicode_len() > 0 {
                    return ColorSupportLevel::Basic;
                }
            },
            Option::None => {},
        }

        ColorSupportLevel::NoColor
    }
}

/// Whether a TeamCity version string announces color support, following
/// `spec_teamcity_matches`.
fn teamcity_matches(s: &str) -> (r: bool)
    ensures
        r == spec_teamcity_matches(s@),
{
    let len = s.unicode_len();
    if len >= 2 && s.get_char(0) == '9' && s.get_char(1) == '.' {
        let mut i: usize = 2;
        while i < len
            invariant
                2 <= i <= len,
                len == s@.len(),
                s@[0] == '9',
                s@[1] == '.',
                forall|j: int| 2 <= j < i ==> s@[j] == '0',
            decreases len - i,
        {
            if s.get_char(i) != '0' {
                return true;
            }
            i += 1;
        }
        // Only zeros follow "9.", and the leading number "9" is one digit
        // long, so neither clause matches.
        proof {
            crate::strutil::lemma_digit_count_is(s@, 1);
        }
        return false;
    }
    let digits = count_leading_digits(s);
    if digits >= 2 && digits < len && s.get_char(digits) == '.' {
        return true;
    }
    proof {
        if spec_teamcity_matches(s@) {
            assert(digit_count(s@) >= 2 && digit_count(s@) < s@.len() && s@[digit_count(s@)]
                == '.');
        }
    }
    false
}

} // verus!
