use alacritty_terminal::vk_renderer::debug::{LogLevel, MessageTypes, MessageTypesExt};
use alacritty_terminal::vk_renderer::instance::{
    InstanceRequest, APPLICATION_NAME, VALIDATION_LAYER,
};
use alacritty_terminal::vk_renderer::version::{application_version, parse_version, Version};

fn version(major: u16, minor: u16, patch: u16) -> Option<Version> {
    Some(Version { major, minor, patch })
}

/// The same reading by the standard library's own splitting and parsing.
fn by_std(text: &str) -> Option<Version> {
    let mut fields = text.split('.');
    let major = fields.next()?.parse().ok()?;
    let minor = fields.next()?.parse().ok()?;
    let patch = fields.next()?.parse().ok()?;
    Some(Version { major, minor, patch })
}

#[test]
fn three_numbers_make_a_version() {
    assert_eq!(parse_version("0.3.3"), version(0, 3, 3));
    assert_eq!(parse_version("1.2.3"), version(1, 2, 3));
    assert_eq!(parse_version("10.20.30"), version(10, 20, 30));
    assert_eq!(application_version("0.3.3"), Version { major: 0, minor: 3, patch: 3 });
}

#[test]
fn fields_after_the_third_are_not_read() {
    assert_eq!(parse_version("1.2.3.4"), version(1, 2, 3));
    assert_eq!(parse_version("1.2.3.x"), version(1, 2, 3));
    assert_eq!(parse_version("1.2.3."), version(1, 2, 3));
}

#[test]
fn fewer_than_three_fields_make_no_version() {
    assert_eq!(parse_version(""), None);
    assert_eq!(parse_version("1"), None);
    assert_eq!(parse_version("1.2"), None);
    assert_eq!(parse_version("."), None);
    assert_eq!(parse_version(".."), None);
}

#[test]
fn empty_field_makes_no_version() {
    assert_eq!(parse_version("1..3"), None);
    assert_eq!(parse_version(".2.3"), None);
    assert_eq!(parse_version("1.2."), None);
}

#[test]
fn field_that_is_no_number_makes_no_version() {
    assert_eq!(parse_version("1.2.3-dev"), None);
    assert_eq!(parse_version("a.2.3"), None);
    assert_eq!(parse_version("1.b.3"), None);
    assert_eq!(parse_version("1.2. 3"), None);
    assert_eq!(parse_version("-1.2.3"), None);
    assert_eq!(parse_version("1.2.\u{663}"), None);
    assert_eq!(parse_version("1.2.3\u{e9}"), None);
}

#[test]
fn plus_sign_may_lead_a_number() {
    assert_eq!(parse_version("+1.+2.+3"), version(1, 2, 3));
    assert_eq!(parse_version("+.2.3"), None);
    assert_eq!(parse_version("++1.2.3"), None);
    assert_eq!(parse_version("1+.2.3"), None);
}

#[test]
fn numbers_end_at_sixteen_bits() {
    assert_eq!(parse_version("65535.65535.65535"), version(65535, 65535, 65535));
    assert_eq!(parse_version("65536.0.0"), None);
    assert_eq!(parse_version("0.65536.0"), None);
    assert_eq!(parse_version("0.0.99999999999999999999999"), None);
    assert_eq!(parse_version("0.0.655350"), None);
}

#[test]
fn leading_zeros_do_not_count() {
    assert_eq!(parse_version("007.00.0000000000000000000000065535"), version(7, 0, 65535));
}

#[test]
fn reading_agrees_with_std() {
    let samples = [
        "", ".", "..", "...", "1", "1.2", "1.2.3", "1.2.3.4", "0.0.0", "+1.2.3", "1.+2.3",
        "1.2.+3", "+.1.2", "-1.2.3", "1.-2.3", "65535.1.1", "65536.1.1", "1.65535.65535",
        "1.2.65536", "01.02.03", "1..2", "1.2.", ".1.2", "1.2.3.", "a.b.c", "1.2.3a", "1 .2.3",
        "1.2.3 ", " 1.2.3", "1,2,3", "1.2,3", "٣.2.1", "1.2.３", "4294967296.0.0",
        "0.0.18446744073709551616", "1.2.3-rc1", "1.2.3+build", "9.9.9.9.9.9",
    ];
    for text in samples.iter() {
        assert_eq!(parse_version(text), by_std(text), "reading {:?}", text);
    }
}

fn types(error: bool, warning: bool, performance: bool, information: bool, debug: bool) -> MessageTypes {
    MessageTypes { error, warning, performance_warning: performance, information, debug }
}

#[test]
fn gravest_kind_sets_the_level() {
    assert_eq!(types(true, true, true, true, true).log_level(), LogLevel::Error);
    assert_eq!(types(false, true, true, true, true).log_level(), LogLevel::Warn);
    assert_eq!(types(false, false, true, true, true).log_level(), LogLevel::Warn);
    assert_eq!(types(false, false, false, true, true).log_level(), LogLevel::Info);
    assert_eq!(types(false, false, false, false, true).log_level(), LogLevel::Debug);
    assert_eq!(types(false, false, false, false, false).log_level(), LogLevel::Trace);
    assert_eq!(types(true, false, false, false, false).log_level(), LogLevel::Error);
    assert_eq!(types(false, true, false, false, false).log_level(), LogLevel::Warn);
}

#[test]
fn gravest_kind_gives_the_name() {
    assert_eq!(types(true, true, true, true, true).printing_name(), Some("error"));
    assert_eq!(types(false, true, true, true, true).printing_name(), Some("warning"));
    assert_eq!(types(false, false, true, true, true).printing_name(), Some("performance_warning"));
    assert_eq!(types(false, false, false, true, true).printing_name(), Some("information"));
    assert_eq!(types(false, false, false, false, true).printing_name(), Some("debug"));
    assert_eq!(types(false, false, false, false, false).printing_name(), None);
}

#[test]
fn instance_with_debugging_loads_the_validation_layer() {
    let v = Version { major: 0, minor: 3, patch: 3 };
    let request = InstanceRequest::with_debugging(true, v);
    assert_eq!(request.application_name, "alacritty");
    assert_eq!(request.application_version, v);
    assert!(request.ext_debug_report);
    assert_eq!(request.layer, Some("VK_LAYER_LUNARG_standard_validation"));
    assert_eq!(request.debug_messages, Some(types(true, true, true, true, true)));
    assert_eq!(APPLICATION_NAME, "alacritty");
    assert_eq!(VALIDATION_LAYER, "VK_LAYER_LUNARG_standard_validation");
}

#[test]
fn instance_without_debugging_loads_nothing_more() {
    let v = Version { major: 1, minor: 0, patch: 0 };
    let request = InstanceRequest::with_debugging(false, v);
    assert_eq!(request.application_name, "alacritty");
    assert_eq!(request.application_version, v);
    assert!(!request.ext_debug_report);
    assert_eq!(request.layer, None);
    assert_eq!(request.debug_messages, None);
}
