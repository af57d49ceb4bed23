use uoomibl::commands::{get_app_info, greet, log_to_file, AppMeta};
use uoomibl::errors::AppError;
use uoomibl::level::LogLevel;

fn sample_meta() -> AppMeta {
    AppMeta {
        version: String::from("0.1.0"),
        name: String::from("uoomibl"),
        authors: String::from("someone"),
        description: String::from("a small backend"),
        os: String::from("linux"),
        arch: String::from("x86_64"),
    }
}

#[test]
fn greet_empty_name_rejected() {
    let (res, rec) = greet("");
    match res {
        Err(AppError::ValidationError(m)) => assert_eq!(m, "名称不能为空"),
        other => panic!("expected a validation error, got {:?}", other),
    }
    assert_eq!(rec.level, LogLevel::Error);
    assert_eq!(rec.target, "greet");
    assert_eq!(rec.message, "无效的名称参数: 空字符串");
}

#[test]
fn greet_whitespace_name_rejected() {
    let (res, rec) = greet(" \t\r\n  ");
    match res {
        Err(AppError::ValidationError(m)) => assert_eq!(m, "名称不能为空"),
        other => panic!("expected a validation error, got {:?}", other),
    }
    assert_eq!(rec.level, LogLevel::Error);
}

#[test]
fn greet_long_whitespace_name_is_still_empty() {
    let name = " ".repeat(101);
    let (res, rec) = greet(&name);
    match res {
        Err(AppError::ValidationError(m)) => assert_eq!(m, "名称不能为空"),
        other => panic!("expected the empty-name error, got {:?}", other),
    }
    assert_eq!(rec.level, LogLevel::Error);
}

#[test]
fn greet_over_length_rejected() {
    let name = "A".repeat(101);
    let (res, rec) = greet(&name);
    match res {
        Err(AppError::ValidationError(m)) => {
            assert_eq!(m, "名称长度不能超过100个字符")
        }
        other => panic!("expected a validation error, got {:?}", other),
    }
    assert_eq!(rec.level, LogLevel::Warn);
    assert_eq!(rec.message, "名称参数过长: 101 字符");
}

#[test]
fn greet_boundary_length_succeeds() {
    let name = "A".repeat(100);
    let (res, rec) = greet(&name);
    let greeting = res.expect("a 100-character name is valid");
    assert!(greeting.contains(&name));
    assert_eq!(rec.level, LogLevel::Info);
}

#[test]
fn greet_world() {
    let (res, rec) = greet("World");
    assert_eq!(res.expect("World is a valid name"), "你好, World! 来自Rust的问候!");
    assert_eq!(rec.level, LogLevel::Info);
    assert_eq!(rec.target, "greet");
    assert_eq!(rec.message, "问候: World");
}

#[test]
fn greet_keeps_name_as_substring() {
    let (res, _) = greet("世界");
    assert!(res.expect("a short name is valid").contains("世界"));
}

#[test]
fn get_app_info_reports_fields() {
    let meta = sample_meta();
    let (res, rec) = get_app_info(&meta);
    let info = res.expect("get_app_info cannot fail");
    assert_eq!(info.version, "0.1.0");
    assert_eq!(info.name, "uoomibl");
    assert_eq!(info.authors, "someone");
    assert_eq!(info.description, "a small backend");
    assert_eq!(info.system_info.os, "linux");
    assert_eq!(info.system_info.arch, "x86_64");
    assert!(info.system_info.cpu_count >= 1);
    assert_eq!(rec.level, LogLevel::Info);
    assert_eq!(rec.target, "get_app_info");
    assert_eq!(rec.message, "获取应用信息");
}

#[test]
fn get_app_info_timestamp_is_rfc3339() {
    let (res, _) = get_app_info(&sample_meta());
    let info = res.expect("get_app_info cannot fail");
    let parsed = chrono::DateTime::parse_from_rfc3339(&info.timestamp);
    assert!(parsed.is_ok(), "timestamp {:?} did not parse", info.timestamp);
}

#[test]
fn log_to_file_recognizes_levels_in_any_casing() {
    let cases = [
        ("debug", LogLevel::Debug),
        ("Debug", LogLevel::Debug),
        ("DEBUG", LogLevel::Debug),
        ("info", LogLevel::Info),
        ("Info", LogLevel::Info),
        ("warn", LogLevel::Warn),
        ("WaRn", LogLevel::Warn),
        ("error", LogLevel::Error),
        ("ERROR", LogLevel::Error),
    ];
    for (level, expected) in cases {
        let (res, rec) = log_to_file(level, "hello");
        assert!(res.is_ok());
        assert_eq!(rec.level, expected, "level string {:?}", level);
        assert_eq!(rec.message, "hello");
        assert_eq!(rec.target, "log_to_file");
    }
}

#[test]
fn log_to_file_absorbs_unknown_level() {
    let (res, rec) = log_to_file("critical", "disk is full");
    assert!(res.is_ok());
    assert_eq!(rec.level, LogLevel::Warn);
    assert_eq!(rec.message, "未知日志级别: critical, 消息: disk is full");
    assert!(rec.message.contains("critical"));
    assert!(rec.message.contains("disk is full"));
}

#[test]
fn log_to_file_absorbs_empty_level() {
    let (res, rec) = log_to_file("", "still recorded");
    assert!(res.is_ok());
    assert_eq!(rec.level, LogLevel::Warn);
    assert_eq!(rec.message, "未知日志级别: , 消息: still recorded");
}

#[test]
fn info_scenario_emits_one_info_record() {
    let (res, rec) = log_to_file("info", "hello");
    assert!(res.is_ok());
    assert_eq!(rec.level, LogLevel::Info);
    assert_eq!(rec.message, "hello");
}
