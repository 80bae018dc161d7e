use term_color_support::colors::{
    determine_stream_color_level, ColorInfo, ColorSupportLevel,
};
use term_color_support::environment::Environment;
use term_color_support::options::OutputStreamOptions;

#[test]
fn test_color_support_level_from_u32() {
    assert_eq!(
        ColorSupportLevel::from_u32(0),
        Some(ColorSupportLevel::NoColor)
    );
    assert_eq!(
        ColorSupportLevel::from_u32(1),
        Some(ColorSupportLevel::Basic)
    );
    assert_eq!(
        ColorSupportLevel::from_u32(2),
        Some(ColorSupportLevel::Colors256)
    );
    assert_eq!(
        ColorSupportLevel::from_u32(3),
        Some(ColorSupportLevel::TrueColor)
    );
    assert_eq!(ColorSupportLevel::from_u32(4), None);
}

#[test]
fn test_color_info_new() {
    let color_info = ColorInfo::new(ColorSupportLevel::Basic);
    assert_eq!(color_info.level, ColorSupportLevel::Basic);
    assert_eq!(color_info.has_basic, true);
    assert_eq!(color_info.has_256, false);
    assert_eq!(color_info.has_16m, false);
}

#[test]
fn test_determine_stream_color_level() {
    let args: Vec<String> = vec![];
    let _ = determine_stream_color_level(
        OutputStreamOptions::new(Some(false), None),
        &args,
        None,
        &Environment::default(),
    );
}

/// Tests if ColorSupportLevel enum variants are comparable for equality.
#[test]
fn test_color_support_level_equality() {
    assert_eq!(ColorSupportLevel::NoColor, ColorSupportLevel::NoColor);
    assert_eq!(ColorSupportLevel::Basic, ColorSupportLevel::Basic);
    assert_eq!(ColorSupportLevel::Colors256, ColorSupportLevel::Colors256);
    assert_eq!(ColorSupportLevel::TrueColor, ColorSupportLevel::TrueColor);
}

/// Tests the equality of ColorInfo instances.
#[test]
fn test_color_info_equality() {
    let color_info1 = ColorInfo::new(ColorSupportLevel::Basic);
    let color_info2 = ColorInfo::new(ColorSupportLevel::Basic);
    assert_eq!(color_info1, color_info2);
}

/// Tests if ColorInfo instances with different color support levels are not equal.
#[test]
fn test_color_info_inequality() {
    let color_info1 = ColorInfo::new(ColorSupportLevel::Basic);
    let color_info2 = ColorInfo::new(ColorSupportLevel::TrueColor);
    assert_ne!(color_info1, color_info2);
}
