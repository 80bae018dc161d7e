use term_color_support::colors::ColorSupportLevel;
use term_color_support::environment::Environment;

// Test determine_color_level() under various conditions
#[test]
fn test_determine_color_level() {
    // Test when term is "dumb"
    let mut environment_dumb = Environment::default();
    environment_dumb.term = String::from("dumb");
    assert_eq!(
        environment_dumb.determine_color_level(),
        ColorSupportLevel::NoColor
    );

    // Test when term is "xterm-kitty"
    let mut environment_xterm_kitty = Environment::default();
    environment_xterm_kitty.term = String::from("xterm-kitty");
    assert_eq!(
        environment_xterm_kitty.determine_color_level(),
        ColorSupportLevel::TrueColor
    );

    // Test when term starts with "vt100"
    let environment_vt100 = Environment::new(
        Some(String::from("vt100-color")),
        Some(String::from("")),
        None,
        None,
        None,
        None,
        None,
    );
    assert_eq!(
        environment_vt100.determine_color_level(),
        ColorSupportLevel::Basic
    );

    // Test when term is "screen" and colorterm is "truecolor"
    let environment_screen_truecolor = Environment::new(
        Some(String::from("screen")),
        Some(String::from("truecolor")),
        None,
        None,
        None,
        None,
        None,
    );
    assert_eq!(
        environment_screen_truecolor.determine_color_level(),
        ColorSupportLevel::TrueColor
    );

    // Test when term is "linux"
    let mut environment_linux = Environment::new(
        Some(String::from("linux")),
        Some(String::from("")),
        None,
        None,
        None,
        None,
        None,
    );
    environment_linux.term = String::from("linux");
    assert_eq!(
        environment_linux.determine_color_level(),
        ColorSupportLevel::Basic
    );
}

#[test]
fn test_windows_color_level() {
    // Test when the major version is below 10
    let mut environment = Environment::default();
    environment.is_windows = true;
    environment.os_release = String::from("9.0.0");
    assert_eq!(
        environment.determine_color_level(),
        ColorSupportLevel::Basic
    );

    // Test when the major version is 10 and the third part is below 10_586
    environment.os_release = String::from("10.0.0");
    assert_eq!(
        environment.determine_color_level(),
        ColorSupportLevel::Basic
    );

    // Test the edge right below 10_586: still Basic
    environment.os_release = String::from("10.0.10585");
    assert_eq!(
        environment.determine_color_level(),
        ColorSupportLevel::Basic
    );

    // Test when the third part is at least 10_586 and below 14_931
    environment.os_release = String::from("10.0.10586");
    assert_eq!(
        environment.determine_color_level(),
        ColorSupportLevel::Colors256
    );

    // Test when the major version is at least 10 and the third part is at least 14_931
    environment.os_release = String::from("10.0.14931");
    assert_eq!(
        environment.determine_color_level(),
        ColorSupportLevel::TrueColor
    );
}

#[test]
fn test_teamcity_version() {
    // Test when teamcity_version starts with "9."
    let mut environment = Environment::default();
    environment.teamcity_version = Some(String::from("9.1"));
    assert_eq!(
        environment.determine_color_level(),
        ColorSupportLevel::Basic
    );

    // Test when teamcity_version starts with a two-digit number
    let mut environment = Environment::default();
    environment.teamcity_version = Some(String::from("10.0"));
    assert_eq!(
        environment.determine_color_level(),
        ColorSupportLevel::Basic
    );

    // Test when teamcity_version does not meet the conditions
    let mut environment = Environment::default();
    environment.teamcity_version = Some(String::from("8.0"));
    assert_eq!(
        environment.determine_color_level(),
        ColorSupportLevel::NoColor
    );
}

#[test]
fn test_get_term_program_version_major() {
    let mut environment = Environment::default();
    environment.term_program_version = String::from("3.2.1");
    assert_eq!(environment.get_term_program_version_major(), Some(3));

    let mut environment = Environment::default();
    environment.colorterm = Some(String::from(""));
    environment.term_program = Some(String::from("Apple_Terminal"));
    environment.term_program_version = String::from("2.2.1");
    assert_eq!(
        environment.determine_color_level(),
        ColorSupportLevel::Colors256
    );

    let mut environment: Environment = Environment::default();
    environment.term_program_version = String::from("3.2.1");
    environment.colorterm = Some(String::from(""));
    environment.term_program = Some(String::from("iTerm.app"));
    assert_eq!(
        environment.determine_color_level(),
        ColorSupportLevel::TrueColor
    );

    let mut environment: Environment = Environment::default();
    environment.colorterm = Some(String::from(""));
    environment.term_program_version = String::from("2.2.1");
    environment.term_program = Some(String::from("iTerm.app"));
    assert_eq!(
        environment.determine_color_level(),
        ColorSupportLevel::Colors256
    );
}

#[test]
fn test_determine_color_level_basic() {
    let mut environment = Environment::default();
    environment.colorterm = Some(String::from(""));
    environment.term = String::from("rxvt");
    assert_eq!(
        environment.determine_color_level(),
        ColorSupportLevel::Basic
    );
}

#[test]
fn test_ci_tf_build() {
    let mut environment = Environment::default();
    environment.ci = Some(String::from("TF_BUILD"));
    environment.agent_name_present = true;
    assert_eq!(
        environment.determine_color_level(),
        ColorSupportLevel::Basic
    );
}

#[test]
fn test_get_os_release_parts_valid() {
    let mut environment = Environment::default();
    environment.os_release = String::from("10.2.3");
    assert_eq!(environment.get_os_release_parts(), vec![10, 2, 3]);
}

#[test]
fn test_get_os_release_parts_invalid() {
    let mut environment = Environment::default();
    environment.os_release = String::from("10.a.3");
    assert_eq!(environment.get_os_release_parts(), vec![10, 0, 3]);
}

#[test]
fn test_get_os_release_parts_empty() {
    let mut environment = Environment::default();
    environment.os_release = String::from("");
    assert_eq!(environment.get_os_release_parts(), vec![0]);
}
