use loggerithm::LogError;
use loggerithm::internal::{LoggerLocation, ModuleRegistry, PadState, parent_module, register_module_logger, run_module_logger};
use loggerithm::logger::Logger;

#[test]
fn parent_of_nested_path() {
    assert_eq!(parent_module("a::b::c"), "a::b");
    assert_eq!(parent_module("a::b"), "a");
}

#[test]
fn parent_of_single_segment_is_root() {
    assert_eq!(parent_module("main"), "");
    assert_eq!(parent_module(""), "");
}

#[test]
fn parent_takes_separators_greedily_from_the_left() {
    assert_eq!(parent_module("a:::b"), "a");
    assert_eq!(parent_module("a::"), "a");
    assert_eq!(parent_module("::"), "");
}

#[test]
fn resolution_correctness() {
    let mut reg = ModuleRegistry::new();
    reg.register(String::from(""), LoggerLocation::Here(Logger::default()));
    reg.register(
        String::from("a"),
        LoggerLocation::Here(Logger::new().set_min_severity(21).add_target(9)),
    );
    reg.register(String::from("a::b"), LoggerLocation::Super);

    let l1 = reg.resolve("a::b::c").unwrap();
    assert_eq!(l1.min_severity, 21);
    assert_eq!(l1.targets, vec![9]);

    let l2 = reg.resolve("a::b").unwrap();
    assert_eq!(l2.min_severity, 21);

    let l3 = reg.resolve("a").unwrap();
    assert_eq!(l3.min_severity, 21);
}

#[test]
fn resolution_reaches_root() {
    let mut reg = ModuleRegistry::new();
    reg.register(String::from(""), LoggerLocation::Here(Logger::default()));
    let logger = reg.resolve("deep::nested::module::path").unwrap();
    assert_eq!(logger.min_severity, 20);
    assert_eq!(logger.targets, vec![0]);
}

#[test]
fn unregistered_root_failure_names_original_path() {
    let reg = ModuleRegistry::new();
    let err = reg.resolve("x::y::z").unwrap_err();
    assert_eq!(err, LogError::LoggerNotRegistered { module: String::from("x::y::z") });
}

#[test]
fn deferring_root_fails_resolution() {
    let mut reg = ModuleRegistry::new();
    reg.register(String::from(""), LoggerLocation::Super);
    let err = reg.resolve("m").unwrap_err();
    assert_eq!(err, LogError::LoggerNotRegistered { module: String::from("m") });
}

#[test]
fn last_registration_wins() {
    let mut reg = ModuleRegistry::new();
    reg.register(String::from(""), LoggerLocation::Here(Logger::default()));
    reg.register(
        String::from("m"),
        LoggerLocation::Here(Logger::new().set_min_severity(1)),
    );
    reg.register(
        String::from("m"),
        LoggerLocation::Here(Logger::new().set_min_severity(2)),
    );
    assert_eq!(reg.resolve("m").unwrap().min_severity, 2);
    assert_eq!(reg.entries.len(), 2);
}

#[test]
fn run_module_logger_resolves_like_the_registry() {
    let mut reg = ModuleRegistry::new();
    reg.register(String::from(""), LoggerLocation::Here(Logger::default()));
    let logger = run_module_logger(&reg, "any::module").unwrap();
    assert_eq!(logger.min_severity, 20);
    assert!(run_module_logger(&ModuleRegistry::new(), "any").is_err());
}

#[test]
fn registration_keys_the_enclosing_module() {
    let mut reg = ModuleRegistry::new();
    let mut pad = PadState::new();
    reg.register(String::from(""), LoggerLocation::Here(Logger::default()));
    // A declaration inside `myapp::worker` expands one module below it.
    register_module_logger(
        &mut reg,
        &mut pad,
        "myapp::worker::declaration_site",
        LoggerLocation::Here(Logger::new().set_min_severity(33)),
    );
    assert_eq!(reg.resolve("myapp::worker").unwrap().min_severity, 33);
    assert_eq!(reg.resolve("myapp::worker::inner").unwrap().min_severity, 33);
    assert_eq!(reg.resolve("myapp").unwrap().min_severity, 20);
    assert_eq!(pad.max_module_len, "myapp::worker".len());
}
