use loggerithm::LogError;
use loggerithm::internal::PadState;
use loggerithm::level::{
    LogLevel, Style, SEVERITY_DEBUG, SEVERITY_ERROR, SEVERITY_FAILURE, SEVERITY_FATAL,
    SEVERITY_INFO, SEVERITY_NOTICE, SEVERITY_SUCCESS, SEVERITY_TRACE, SEVERITY_WARN,
};
use loggerithm::level;

#[test]
fn canonical_severity_table() {
    assert_eq!(SEVERITY_TRACE, 5);
    assert_eq!(SEVERITY_DEBUG, 10);
    assert_eq!(SEVERITY_INFO, 20);
    assert_eq!(SEVERITY_NOTICE, 25);
    assert_eq!(SEVERITY_SUCCESS, 25);
    assert_eq!(SEVERITY_WARN, 30);
    assert_eq!(SEVERITY_FAILURE, 35);
    assert_eq!(SEVERITY_ERROR, 40);
    assert_eq!(SEVERITY_FATAL, 50);
}

#[test]
fn builtin_levels_register_their_names() {
    let mut pad = PadState::new();
    let info = level::info(&mut pad);
    assert_eq!(info.get_name(), "INFO");
    assert_eq!(info.get_severity(), 20);
    assert!(info.initialized);
    assert_eq!(pad.max_level_name_len, 4);

    let notice = level::notice(&mut pad);
    assert_eq!(notice.get_name(), "NOTICE");
    assert_eq!(pad.max_level_name_len, 6);

    let warn = level::warn(&mut pad);
    assert_eq!(warn.get_name(), "WARN");
    assert_eq!(pad.max_level_name_len, 6);
}

#[test]
fn two_levels_may_share_a_severity() {
    let mut pad = PadState::new();
    let notice = level::notice(&mut pad);
    let success = level::success(&mut pad);
    assert_eq!(notice.get_severity(), success.get_severity());
    assert_ne!(notice.get_name(), success.get_name());
}

#[test]
fn padding_monotonicity() {
    let mut pad = PadState::new();
    LogLevel::new(1).init("A", &mut pad).unwrap();
    assert_eq!(pad.max_level_name_len, 1);
    LogLevel::new(2).init("ABC", &mut pad).unwrap();
    assert_eq!(pad.max_level_name_len, 3);
    LogLevel::new(3).init("AB", &mut pad).unwrap();
    assert_eq!(pad.max_level_name_len, 3);
    LogLevel::new(4).init("X", &mut pad).unwrap();
    assert_eq!(pad.max_level_name_len, 3);
}

#[test]
fn init_attaches_the_name_once() {
    let mut pad = PadState::new();
    let level = LogLevel::new(30).init("ALERT", &mut pad).unwrap();
    assert_eq!(level.get_name(), "ALERT");
    assert_eq!(level.get_severity(), 30);
    assert_eq!(pad.max_level_name_len, 5);
}

#[test]
fn double_initialization_fails() {
    let mut pad = PadState::new();
    let level = LogLevel::new(30).init("ALERT", &mut pad).unwrap();
    let again = level.init("OTHER", &mut pad);
    assert_eq!(again.unwrap_err(), LogError::DoubleInitialization);
    assert_eq!(pad.max_level_name_len, 5);
}

#[test]
fn idempotent_formatting_with_noop_style() {
    let mut pad = PadState::new();
    let level = LogLevel::new(10).init("PLAIN", &mut pad).unwrap();
    assert_eq!(level.style, Style::Normal);
    let once = level.format(String::from("hello"));
    assert_eq!(once, "hello");
    let twice = level.format(once);
    assert_eq!(twice, "hello");
    // Formatting never changes the level itself.
    assert_eq!(level.get_name(), "PLAIN");
    assert_eq!(level.get_severity(), 10);
}

#[test]
fn styled_formatting_wraps_in_escape_sequences() {
    colored::control::set_override(true);
    let mut pad = PadState::new();
    let level = LogLevel::new(25)
        .formatted(Style::Green)
        .init("GOOD", &mut pad)
        .unwrap();
    let out = level.format(String::from("done"));
    colored::control::unset_override();
    assert_eq!(out, "\x1b[32mdone\x1b[0m");
}

#[test]
fn formatting_without_colour_leaves_text_alone() {
    colored::control::set_override(false);
    let mut pad = PadState::new();
    let level = LogLevel::new(25)
        .formatted(Style::Red)
        .init("BAD", &mut pad)
        .unwrap();
    let out = level.format(String::from("done"));
    colored::control::unset_override();
    assert_eq!(out, "done");
}

#[test]
fn builder_keeps_fields_through_restyling() {
    let level = LogLevel::new(42).formatted(Style::BrightRedBold);
    assert_eq!(level.get_severity(), 42);
    assert_eq!(level.style, Style::BrightRedBold);
    assert!(!level.initialized);
}
