use term_color_support::colors::ColorSupportLevel;
use term_color_support::options::{
    extract_color_level_from_flags, extract_force_color_level_from_env, has_flag,
    OutputStreamOptions,
};

#[test]
fn test_new_output_stream_options_default() {
    let options = OutputStreamOptions::new(None, None);
    assert_eq!(options.is_tty, false);
    assert_eq!(options.sniff_flags, true);
}

#[test]
fn test_new_output_stream_options_custom() {
    let options = OutputStreamOptions::new(Some(true), Some(false));
    assert_eq!(options.is_tty, true);
    assert_eq!(options.sniff_flags, false);
}

#[test]
fn test_has_flag_present_no_args() {
    let arguments = vec![];
    let flag_present = has_flag("--color", &arguments);
    assert!(!flag_present);
}

#[test]
fn test_has_flag_with_existing_flag() {
    let args = vec![
        String::from("-verbose"),
        String::from("-output"),
        String::from("file.txt"),
    ];
    assert!(has_flag("-verbose", &args));
}

#[test]
fn test_has_flag_with_existing_flag_case_insensitive() {
    let args = vec![
        String::from("-Verbose"),
        String::from("-output"),
        String::from("file.txt"),
    ];
    assert!(has_flag("-verbose", &args));
}

#[test]
fn test_has_flag_without_dashes() {
    let args = vec![
        String::from("verbose"),
        String::from("output"),
        String::from("file.txt"),
    ];
    assert!(has_flag("-verbose", &args));
}

#[test]
fn test_has_flag_with_multiple_args() {
    let args = vec![
        String::from("-verbose"),
        String::from("-output"),
        String::from("file.txt"),
    ];
    assert!(has_flag("-output", &args));
}

#[test]
fn test_has_flag_with_non_existing_flag() {
    let args = vec![
        String::from("-debug"),
        String::from("-output"),
        String::from("file.txt"),
    ];
    assert!(!has_flag("-verbose", &args));
}

#[test]
fn test_has_flag_with_empty_args() {
    let args: Vec<String> = vec![];
    assert!(!has_flag("-verbose", &args));
}

#[test]
fn test_has_flag_with_empty_flag() {
    let args = vec![
        String::from("-verbose"),
        String::from("-output"),
        String::from("file.txt"),
    ];
    assert!(!has_flag("", &args));
}

#[test]
fn test_has_flag_with_no_dash_in_flag() {
    let args = vec![
        String::from("verbose"),
        String::from("output"),
        String::from("file.txt"),
    ];
    assert!(has_flag("verbose", &args));
}

#[test]
fn test_has_flag_with_no_dash_in_flag_but_with_dash_in_args() {
    let args = vec![
        String::from("-verbose"),
        String::from("-output"),
        String::from("file.txt"),
    ];
    assert!(has_flag("verbose", &args));
}

#[test]
fn test_has_flag_with_no_dash_in_flag_but_with_double_dash_in_args() {
    let args = vec![
        String::from("--verbose"),
        String::from("--output"),
        String::from("file.txt"),
    ];
    assert!(has_flag("verbose", &args));
}

#[test]
fn test_has_flag_lowercases_beyond_ascii() {
    // The argument side is lowercased per Unicode, so a capital A-umlaut in
    // the argument matches a lowercase a-umlaut in the flag name.
    let args = vec![String::from("--ÄRBOSE")];
    assert!(has_flag("-ärbose", &args));
    // The flag side is never lowercased: an uppercase flag pattern cannot
    // match.
    assert!(!has_flag("-ÄRBOSE", &args));
}

#[test]
fn test_has_flag_with_double_dash_in_flag() {
    let args = vec![
        String::from("-verbose"),
        String::from("-output"),
        String::from("file.txt"),
    ];
    assert!(has_flag("--verbose", &args));
}

#[test]
fn test_extract_force_color_level_from_env_true() {
    assert_eq!(
        extract_force_color_level_from_env(Some("true")),
        Some(ColorSupportLevel::Basic)
    );
}

#[test]
fn test_extract_force_color_level_from_env_false() {
    assert_eq!(
        extract_force_color_level_from_env(Some("false")),
        Some(ColorSupportLevel::NoColor)
    );
}

#[test]
fn test_extract_force_color_level_from_env_empty() {
    assert_eq!(
        extract_force_color_level_from_env(Some("")),
        Some(ColorSupportLevel::Basic)
    );
}

#[test]
fn test_extract_force_color_level_from_env_valid_integer() {
    assert_eq!(
        extract_force_color_level_from_env(Some("2")),
        Some(ColorSupportLevel::Colors256)
    );
}

#[test]
fn test_extract_force_color_level_from_env_invalid_integer() {
    assert_eq!(extract_force_color_level_from_env(Some("not_an_integer")), None);
}

#[test]
fn test_extract_color_level_from_flags_no_color_flags() {
    let args = vec![String::from("program_name"), String::from("--no-color")];
    assert_eq!(
        extract_color_level_from_flags(&args),
        Some(ColorSupportLevel::NoColor)
    );
}

#[test]
fn test_extract_color_level_from_flags_color_false_flags() {
    let args = vec![String::from("program_name"), String::from("--color=false")];
    assert_eq!(
        extract_color_level_from_flags(&args),
        Some(ColorSupportLevel::NoColor)
    );
}

#[test]
fn test_extract_color_level_from_flags_color_never_flags() {
    let args = vec![String::from("program_name"), String::from("--color=never")];
    assert_eq!(
        extract_color_level_from_flags(&args),
        Some(ColorSupportLevel::NoColor)
    );
}

// Test cases for flags indicating basic color support.
#[test]
fn test_extract_color_level_from_flags_color_flags() {
    let args = vec![String::from("program_name"), String::from("--color")];
    assert_eq!(
        extract_color_level_from_flags(&args),
        Some(ColorSupportLevel::Basic)
    );
}

#[test]
fn test_extract_color_level_from_flags_colors_flags() {
    let args = vec![String::from("program_name"), String::from("--colors")];
    assert_eq!(
        extract_color_level_from_flags(&args),
        Some(ColorSupportLevel::Basic)
    );
}

#[test]
fn test_extract_color_level_from_flags_color_true_flags() {
    let args = vec![String::from("program_name"), String::from("--color=true")];
    assert_eq!(
        extract_color_level_from_flags(&args),
        Some(ColorSupportLevel::Basic)
    );
}

#[test]
fn test_extract_color_level_from_flags_color_always_flags() {
    let args = vec![String::from("program_name"), String::from("--color=always")];
    assert_eq!(
        extract_color_level_from_flags(&args),
        Some(ColorSupportLevel::Basic)
    );
}

// Test case when no relevant flags are present.
#[test]
fn test_extract_color_level_from_flags_no_flags() {
    let args = vec![String::from("program_name")];
    assert_eq!(extract_color_level_from_flags(&args), None);
}
