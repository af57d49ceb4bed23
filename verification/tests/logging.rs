use chrono::{Datelike, Timelike};
use uoomibl::errors::AppError;
use uoomibl::level::{LogLevel, LogMode};
use uoomibl::record::{format_line, LogRecord, Logger};
use uoomibl::setup::{log_file_plan, resolve_log_file_plan};
use uoomibl::text::{dec_string, pad2, pad4, str_eq};
use uoomibl::time::{rfc3339_string, ClockReading, Timestamp};

fn noon_stamp() -> Timestamp {
    Timestamp { year: 2026, month: 10, day: 9, hour: 12, minute: 33, second: 45 }
}

fn info_record() -> LogRecord {
    LogRecord {
        level: LogLevel::Info,
        target: String::from("greet"),
        message: String::from("hello"),
        stamp: noon_stamp(),
    }
}

#[test]
fn render_prefixes_each_kind() {
    assert_eq!(AppError::GeneralError(String::from("x")).render(), "一般错误: x");
    assert_eq!(AppError::ValidationError(String::from("x")).render(), "验证错误: x");
    assert_eq!(AppError::IOError(String::from("x")).render(), "IO错误: x");
    assert_eq!(AppError::NetworkError(String::from("x")).render(), "网络错误: x");
}

#[test]
fn kind_labels_are_fixed() {
    assert_eq!(AppError::GeneralError(String::from("x")).kind_label(), "general");
    assert_eq!(AppError::ValidationError(String::from("x")).kind_label(), "validation");
    assert_eq!(AppError::IOError(String::from("x")).kind_label(), "io");
    assert_eq!(AppError::NetworkError(String::from("x")).kind_label(), "network");
}

#[test]
fn io_failures_become_the_io_kind() {
    let e = AppError::from_io_message(String::from("file not found"));
    match &e {
        AppError::IOError(m) => assert_eq!(m, "file not found"),
        other => panic!("expected the IO kind, got {:?}", other),
    }
    assert_eq!(e.message(), "file not found");
    assert_eq!(e.render(), "IO错误: file not found");
}

#[test]
fn severities_are_ordered() {
    assert!(LogLevel::Info.at_least(LogLevel::Debug));
    assert!(LogLevel::Error.at_least(LogLevel::Warn));
    assert!(LogLevel::Warn.at_least(LogLevel::Warn));
    assert!(!LogLevel::Debug.at_least(LogLevel::Info));
    assert!(!LogLevel::Warn.at_least(LogLevel::Error));
}

#[test]
fn labels_are_upper_case() {
    assert_eq!(LogLevel::Debug.label(), "DEBUG");
    assert_eq!(LogLevel::Info.label(), "INFO");
    assert_eq!(LogLevel::Warn.label(), "WARN");
    assert_eq!(LogLevel::Error.label(), "ERROR");
}

#[test]
fn format_line_matches_template() {
    assert_eq!(format_line(&info_record()), "[2026-10-09][12:33:45][INFO][greet] hello");
}

#[test]
fn format_line_pads_small_components() {
    let rec = LogRecord {
        level: LogLevel::Debug,
        target: String::from("setup"),
        message: String::from("ready"),
        stamp: Timestamp { year: 26, month: 1, day: 2, hour: 3, minute: 4, second: 5 },
    };
    assert_eq!(format_line(&rec), "[0026-01-02][03:04:05][DEBUG][setup] ready");
}

#[test]
fn development_logger_keeps_debug() {
    let logger = Logger::new(LogMode::Development);
    let mut rec = info_record();
    rec.level = LogLevel::Debug;
    let line = logger.emit(&rec);
    assert_eq!(line.unwrap(), "[2026-10-09][12:33:45][DEBUG][greet] hello");
}

#[test]
fn production_logger_drops_debug() {
    let logger = Logger::new(LogMode::Production);
    let mut rec = info_record();
    rec.level = LogLevel::Debug;
    assert!(logger.emit(&rec).is_none());
    assert!(logger.emit(&info_record()).is_some());
}

#[test]
fn development_plan_is_the_fixed_file() {
    let (dir, path) = log_file_plan(LogMode::Development, None);
    assert!(dir.is_none());
    assert_eq!(path, "uoomibl-dev.log");
    let (dir, path) = log_file_plan(LogMode::Development, Some(String::from("/data")));
    assert!(dir.is_none());
    assert_eq!(path, "uoomibl-dev.log");
}

#[test]
fn production_plan_joins_the_data_dir() {
    let (dir, path) = log_file_plan(LogMode::Production, Some(String::from("/data/uoomibl")));
    assert_eq!(dir.unwrap(), "/data/uoomibl");
    assert_eq!(path, "/data/uoomibl/app.log");
}

#[test]
fn production_plan_falls_back_without_a_data_dir() {
    let (dir, path) = log_file_plan(LogMode::Production, None);
    assert!(dir.is_none());
    assert_eq!(path, "uoomibl.log");
}

#[test]
fn resolved_plan_matches_the_mode() {
    let (dir, path) = resolve_log_file_plan(LogMode::Development);
    assert!(dir.is_none());
    assert_eq!(path, "uoomibl-dev.log");
    let (dir, path) = resolve_log_file_plan(LogMode::Production);
    match dir {
        Some(d) => assert_eq!(path, format!("{}/app.log", d)),
        None => assert_eq!(path, "uoomibl.log"),
    }
}

#[test]
fn rfc3339_renders_offsets() {
    let t = Timestamp { year: 2026, month: 1, day: 2, hour: 3, minute: 4, second: 5 };
    assert_eq!(rfc3339_string(&t, 28800), "2026-01-02T03:04:05+08:00");
    assert_eq!(rfc3339_string(&t, -3600), "2026-01-02T03:04:05-01:00");
    assert_eq!(rfc3339_string(&t, 0), "2026-01-02T03:04:05+00:00");
    assert_eq!(rfc3339_string(&t, -(5 * 3600 + 30 * 60)), "2026-01-02T03:04:05-05:30");
}

#[test]
fn rfc3339_output_parses_back() {
    let t = Timestamp { year: 1996, month: 12, day: 19, hour: 16, minute: 39, second: 57 };
    let s = rfc3339_string(&t, -8 * 3600);
    let parsed = chrono::DateTime::parse_from_rfc3339(&s).expect("the rendering is RFC 3339");
    assert_eq!(parsed.year(), 1996);
    assert_eq!(parsed.month(), 12);
    assert_eq!(parsed.day(), 19);
    assert_eq!(parsed.hour(), 16);
    assert_eq!(parsed.minute(), 39);
    assert_eq!(parsed.second(), 57);
    assert_eq!(parsed.offset().local_minus_utc(), -8 * 3600);
}

#[test]
fn clock_years_are_clamped_to_four_digits() {
    let base = ClockReading {
        year: 2026,
        month: 6,
        day: 15,
        hour: 10,
        minute: 20,
        second: 30,
        offset_seconds: 0,
    };
    assert_eq!(Timestamp::from_clock(&base).year, 2026);
    let early = ClockReading { year: -44, ..base };
    assert_eq!(Timestamp::from_clock(&early).year, 0);
    let late = ClockReading { year: 262142, ..base };
    assert_eq!(Timestamp::from_clock(&late).year, 9999);
}

#[test]
fn decimal_rendering_is_exact() {
    assert_eq!(dec_string(0), "0");
    assert_eq!(dec_string(7), "7");
    assert_eq!(dec_string(101), "101");
    assert_eq!(dec_string(987654), "987654");
    assert_eq!(pad2(3), "03");
    assert_eq!(pad2(59), "59");
    assert_eq!(pad4(7), "0007");
    assert_eq!(pad4(2026), "2026");
}

#[test]
fn string_equality_compares_characters() {
    assert!(str_eq("", ""));
    assert!(str_eq("debug", "debug"));
    assert!(str_eq("你好", "你好"));
    assert!(!str_eq("debug", "Debug"));
    assert!(!str_eq("debug", "debu"));
    assert!(!str_eq("你好", "你"));
}
