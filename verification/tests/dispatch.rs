use acta::filters::{empty, level_range};
use acta::formatters::{time_lvl, time_lvl_target};
use acta::handlers::{Handler, Sink, StderrHandler, StdoutHandler};
use acta::level::Level;
use acta::logger::{InitError, Logger};
use acta::record::TimedRecord;
use acta::time::Timestamp;

fn fixed_clock() -> Timestamp {
    Timestamp {
        year: 2024,
        month: 6,
        day: 1,
        hour: 12,
        minute: 0,
        second: 0,
        nanosecond: 0,
    }
}

fn record(level: Level) -> TimedRecord {
    TimedRecord::at_time(
        fixed_clock(),
        level,
        String::from("app::main"),
        String::from("hello"),
    )
}

fn plain_stdout_handler() -> Handler {
    let mut h = StdoutHandler::new(time_lvl_target(String::from("%Y")), empty());
    h.set_colors(false);
    Handler::Stdout(h)
}

fn plain_stderr_handler() -> Handler {
    let mut h = StderrHandler::new(time_lvl(String::from("%Y")), empty());
    h.set_colors(false);
    Handler::Stderr(h)
}

#[test]
fn dispatch_visits_handlers_in_insertion_order() {
    let mut logger = Logger::new();
    logger.register(plain_stdout_handler());
    logger.register(plain_stderr_handler());
    let out = logger.log(&record(Level::Info));
    assert_eq!(out.len(), 2);
    assert_eq!(out[0].sink, Sink::Stdout);
    assert_eq!(out[0].text, "[2024 Info ] app::main => hello");
    assert_eq!(out[1].sink, Sink::Stderr);
    assert_eq!(out[1].text, "[2024 Info ] => hello");
}

#[test]
fn range_filtered_handler_rejects_info_accepts_error() {
    let mut h = StdoutHandler::new(
        time_lvl_target(String::from("%Y")),
        level_range(Level::Warning, Level::Fatal),
    );
    h.set_colors(false);
    let mut logger = Logger::new();
    logger.register(Handler::Stdout(h));

    let silent = logger.log(&record(Level::Info));
    assert!(silent.is_empty());

    let loud = logger.log(&record(Level::Error));
    assert_eq!(loud.len(), 1);
    assert_eq!(loud[0].text, "[2024 Error] app::main => hello");
}

#[test]
fn second_initialization_fails_and_changes_nothing() {
    let mut logger = Logger::new();
    let first = logger.initialize(vec![plain_stdout_handler()]);
    assert!(first.is_ok());

    let second = logger.initialize(vec![plain_stdout_handler(), plain_stderr_handler()]);
    assert_eq!(second, Err(InitError::AlreadyInitialized));

    // Still exactly the first list: one handler, one line.
    let out = logger.log(&record(Level::Info));
    assert_eq!(out.len(), 1);
    assert_eq!(out[0].sink, Sink::Stdout);
}

#[test]
fn registration_also_works_after_bulk_install() {
    let mut logger = Logger::new();
    logger.initialize(vec![plain_stdout_handler()]).unwrap();
    logger.register(plain_stderr_handler());
    let out = logger.log(&record(Level::Debug));
    assert_eq!(out.len(), 2);
}

#[test]
fn emit_builds_the_record_itself() {
    let mut logger = Logger::new();
    logger.register(plain_stdout_handler());
    logger.register(plain_stderr_handler());
    let out = logger.emit(
        Level::Warning,
        String::from("app::main"),
        String::from("careful"),
    );
    assert_eq!(out.len(), 2);
    assert_eq!(out[0].sink, Sink::Stdout);
    assert!(out[0].text.ends_with("Warn ] app::main => careful"));
}

#[test]
fn empty_registry_dispatches_nothing() {
    let logger = Logger::new();
    let out = logger.log(&record(Level::Fatal));
    assert!(out.is_empty());
    assert!(logger.enabled(record(Level::Fatal).metadata()));
    logger.flush();
}

#[test]
fn handler_accessors() {
    let handler = plain_stdout_handler();
    assert_eq!(handler.sink_kind(), Sink::Stdout);
    assert!(handler.filter(record(Level::Trace).metadata()));
    handler.flush();
    let err_handler = plain_stderr_handler();
    assert_eq!(err_handler.sink_kind(), Sink::Stderr);
}
