use loggerithm::LogContext;
use loggerithm::internal::PadState;
use loggerithm::level::{LogLevel, Style};
use loggerithm::level;
use loggerithm::logger::{Logger, default_line};
use loggerithm::time::{LocalTime, Timestamp};

fn fixed_local() -> LocalTime {
    LocalTime { year: 2024, month: 5, day: 7, hour: 3, minute: 4, second: 5, nanos: 60 }
}

fn make_context<'l>(
    logger: &'l Logger,
    level: &'l LogLevel,
    module: &str,
    text: &str,
    pad: PadState,
) -> LogContext<'l> {
    LogContext {
        logger,
        time: Timestamp { secs: 1_715_000_000, nanos: 60 },
        local: fixed_local(),
        module: String::from(module),
        position: (12, 34),
        level,
        text: String::from(text),
        pad,
    }
}

#[test]
fn accessors_report_the_call_site() {
    let logger = Logger::new();
    let mut pad = PadState::new();
    let info = level::info(&mut pad);
    let ctx = logger.create_context(
        &info,
        String::from("my::module"),
        (7, 9),
        String::from("hello"),
        &pad,
    );
    assert_eq!(ctx.module(), "my::module");
    assert_eq!(ctx.line(), 7);
    assert_eq!(ctx.column(), 9);
    assert_eq!(ctx.message(), "hello");
    assert_eq!(ctx.level_name(), "INFO");
    assert_eq!(ctx.level().get_severity(), 20);
    assert_eq!(ctx.time_utc(), ctx.time);
    assert_eq!(ctx.time_local(), ctx.local);
}

#[test]
fn module_and_level_name_padding() {
    let logger = Logger::new();
    let mut pad = PadState::new();
    pad.observe_module(8);
    let info = level::info(&mut pad);
    let ctx = make_context(&logger, &info, "ab", "hi", pad);
    assert_eq!(ctx.module_p(), "ab      ");
    assert_eq!(ctx.level_name_p(), "INFO");

    let mut wide = pad;
    wide.observe_level_name(6);
    let ctx2 = make_context(&logger, &info, "ab", "hi", wide);
    assert_eq!(ctx2.level_name_p(), "INFO  ");
}

#[test]
fn styled_padding_discounts_invisible_characters() {
    colored::control::set_override(true);
    let logger = Logger::new();
    let mut pad = PadState::new();
    pad.observe_level_name(6);
    pad.observe_module(4);
    let info = level::info(&mut pad);
    let ctx = make_context(&logger, &info, "ab", "hi", pad);
    let fp = ctx.level_name_fp();
    let pf = ctx.level_name_pf();
    let mfp = ctx.module_fp();
    colored::control::unset_override();
    // Styled first: the escape bytes sit around the raw name, the two
    // spaces keep the visible width at six columns.
    assert_eq!(fp, "\x1b[2;36mINFO\x1b[0m  ");
    // Padded first: the escape bytes wrap the already padded name.
    assert_eq!(pf, "\x1b[2;36mINFO  \x1b[0m");
    assert_eq!(mfp, "\x1b[2;36mab\x1b[0m  ");
}

#[test]
fn formatting_follows_the_level_style() {
    colored::control::set_override(false);
    let logger = Logger::new();
    let mut pad = PadState::new();
    let warn = level::warn(&mut pad);
    let ctx = make_context(&logger, &warn, "m", "watch out", pad);
    let plain = ctx.formatted(ctx.message());
    assert_eq!(plain, "watch out");
    assert_eq!(ctx.module_f(), "m");
    assert_eq!(ctx.level_name_f(), "WARN");
    colored::control::unset_override();
}

#[test]
fn local_time_renders_zero_padded() {
    let t = fixed_local();
    assert_eq!(t.render(), "2024-05-07 03:04:05.000000060");
}

#[test]
fn local_time_renders_negative_years_and_wide_nanos() {
    let t = LocalTime { year: -44, month: 12, day: 31, hour: 23, minute: 59, second: 59, nanos: 1_999_999_999 };
    assert_eq!(t.render(), "-0044-12-31 23:59:59.1999999999");
}

#[test]
fn default_line_lays_out_the_columns() {
    colored::control::set_override(false);
    let logger = Logger::default();
    let mut pad = PadState::new();
    pad.observe_module(6);
    let info = level::info(&mut pad);
    let ctx = make_context(&logger, &info, "main", "hello", pad);
    let line = default_line(&ctx);
    colored::control::unset_override();
    assert_eq!(line, " [ 2024-05-07 03:04:05.000000060 ] [ main   ] [ INFO ] hello");
}

#[test]
fn default_line_with_styles_keeps_the_message_last() {
    colored::control::set_override(true);
    let logger = Logger::default();
    let mut pad = PadState::new();
    let info = level::info(&mut pad);
    let ctx = make_context(&logger, &info, "main", "hello", pad);
    let line = default_line(&ctx);
    colored::control::unset_override();
    assert!(line.starts_with(" [ \x1b[2;92m2024-05-07 03:04:05.000000060\x1b[0m ] [ "));
    assert!(line.ends_with(" ] \x1b[2;36mhello\x1b[0m"));
}

#[test]
fn formatting_a_custom_styled_level() {
    colored::control::set_override(true);
    let logger = Logger::new();
    let mut pad = PadState::new();
    let fatal = level::fatal(&mut pad);
    let ctx = make_context(&logger, &fatal, "m", "boom", pad);
    let styled = ctx.formatted(String::from("boom"));
    colored::control::unset_override();
    assert_eq!(fatal.style, Style::BrightWhiteBoldOnRed);
    assert_eq!(styled, "\x1b[1;41;97mboom\x1b[0m");
}
