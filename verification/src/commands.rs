//! The three boundary operations: `greet`, `get_app_info` and `log_to_file`.
//!
//! Each validates its input, returns a typed success value or a typed
//! [`AppError`], and reports the call as exactly one structured
//! [`LogRecord`] — on the failure paths as well as on success.
use crate::errors::{AppError, AppResult};
use crate::level::LogLevel;
use crate::record::LogRecord;
use crate::text::{dec_digits, dec_string, str_eq};
use crate::time::{is_rfc3339_datetime, lemma_rfc3339_of_valid, now_clock, Timestamp};
use vstd::prelude::*;
use vstd::string::StrSliceExecFns;
use vstd::string::StringExecFns;

verus! {

/// What `str::to_lowercase` returns for a string: a function of its
/// characters alone.
pub uninterp spec fn lower_of(s: Seq<char>) -> Seq<char>;

/// Whether a character has the Unicode `White_Space` property, as
/// `char::is_whitespace` decides it.
pub uninterp spec fn is_whitespace_char(c: char) -> bool;

/// Relies on `str::to_lowercase`: the lowercase equivalent of the string,
/// determined by its characters alone.
#[verifier::external_body]
fn lowercase(s: &str) -> (r: String)
    ensures
        r@ == lower_of(s@),
{
    s.to_lowercase()
}

/// Relies on `char::is_whitespace`: whether the character has the Unicode
/// `White_Space` property, determined by the character alone.
#[verifier::external_body]
fn whitespace_char(c: char) -> (r: bool)
    ensures
        r == is_whitespace_char(c),
{
    c.is_whitespace()
}

/// Relies on `num_cpus::get`: the number of logical CPUs available, which
/// its documentation promises to be at least 1.
#[verifier::external_body]
fn cpu_count() -> (n: usize)
    ensures
        n >= 1,
{
    num_cpus::get()
}

/// A string whose every character is whitespace — what trimming would
/// reduce to the empty string. The empty string itself is included.
pub open spec fn all_whitespace(s: Seq<char>) -> bool {
    forall|i: int| 0 <= i < s.len() ==> is_whitespace_char(s[i])
}

/// Whether every character of `s` is whitespace.
pub fn str_all_whitespace(s: &str) -> (r: bool)
    ensures
        r == all_whitespace(s@),
{
    let n = s.unicode_len();
    let mut i: usize = 0;
    while i < n
        invariant
            n == s@.len(),
            i <= n,
            forall|j: int| 0 <= j < i ==> is_whitespace_char(s@[j]),
        decreases n - i,
    {
        if !whitespace_char(s.get_char(i)) {
            proof {
                assert(!is_whitespace_char(s@[i as int]));
            }
            return false;
        }
        i = i + 1;
    }
    true
}

/// The fixed greeting built around a name.
pub open spec fn greeting_of(name: Seq<char>) -> Seq<char> {
    "你好, "@ + name + "! 来自Rust的问候!"@
}

/// The log message reporting an over-length name of `n` characters.
pub open spec fn over_length_log_message(n: nat) -> Seq<char> {
    "名称参数过长: "@ + dec_digits(n) + " 字符"@
}

/// Greets a name. A name that trimming would empty is rejected, as is one
/// over 100 characters; a valid name is embedded in the fixed greeting.
/// The second component reports the call: `Error` severity for an empty
/// name, `Warn` for an over-length one, `Info` on success.
pub fn greet(name: &str) -> (r: (AppResult<String>, LogRecord))
    ensures
        r.1.wf(),
        r.1.target@ == "greet"@,
        all_whitespace(name@) ==> ((r.0 matches Err(AppError::ValidationError(m)) && m@
            == "名称不能为空"@) && r.1.level == LogLevel::Error && r.1.message@
            == "无效的名称参数: 空字符串"@),
        !all_whitespace(name@) && name@.len() > 100 ==> ((r.0 matches Err(
            AppError::ValidationError(m),
        ) && m@ == "名称长度不能超过100个字符"@) && r.1.level == LogLevel::Warn
            && r.1.message@ == over_length_log_message(name@.len())),
        !all_whitespace(name@) && name@.len() <= 100 ==> ((r.0 matches Ok(g) && g@ == greeting_of(
            name@,
        )) && r.1.level == LogLevel::Info && r.1.message@ == "问候: "@ + name@),
{
    let clock = now_clock();
    let stamp = Timestamp::from_clock(&clock);
    if str_all_whitespace(name) {
        let rec = LogRecord {
            level: LogLevel::Error,
            target: String::from_str("greet"),
            message: String::from_str("无效的名称参数: 空字符串"),
            stamp,
        };
        (Err(AppError::ValidationError(String::from_str("名称不能为空"))), rec)
    } else if name.unicode_len() > 100 {
        let mut log_message = String::from_str("名称参数过长: ");
        log_message.append(dec_string(name.unicode_len() as u64).as_str());
        log_message.append(" 字符");
        let rec = LogRecord {
            level: LogLevel::Warn,
            target: String::from_str("greet"),
            message: log_message,
            stamp,
        };
        (Err(AppError::ValidationError(String::from_str("名称长度不能超过100个字符"))), rec)
    } else {
        let mut greeting = String::from_str("你好, ");
        greeting.append(name);
        greeting.append("! 来自Rust的问候!");
        let mut log_message = String::from_str("问候: ");
        log_message.append(name);
        let rec = LogRecord {
            level: LogLevel::Info,
            target: String::from_str("greet"),
            message: log_message,
            stamp,
        };
        (Ok(greeting), rec)
    }
}

/// A valid name stands in the greeting unchanged, as the characters from
/// position 4 on: the greeting contains the exact name as a substring.
pub proof fn lemma_greeting_contains_name(name: Seq<char>)
    ensures
        greeting_of(name).len() == name.len() + 16,
        greeting_of(name).subrange(4, 4 + name.len() as int) == name,
{
    reveal_strlit("你好, ");
    reveal_strlit("! 来自Rust的问候!");
    assert(greeting_of(name).subrange(4, 4 + name.len() as int) =~= name);
}

/// The build-time identity of the application, handed in by the hosting
/// shell: package fields and the platform identifiers.
#[derive(Debug, Clone)]
pub struct AppMeta {
    pub version: String,
    pub name: String,
    pub authors: String,
    pub description: String,
    pub os: String,
    pub arch: String,
}

/// The platform summary inside [`AppInfo`].
#[derive(Debug, Clone)]
pub struct SystemInfo {
    pub os: String,
    pub arch: String,
    pub cpu_count: usize,
}

/// The structured object `get_app_info` returns.
#[derive(Debug, Clone)]
pub struct AppInfo {
    pub version: String,
    pub name: String,
    pub authors: String,
    pub description: String,
    pub system_info: SystemInfo,
    pub timestamp: String,
}

/// Describes the application: its build-time fields, the platform, a CPU
/// count of at least 1, and the current local time as an RFC 3339 string.
/// It cannot fail; the second component reports the call at `Info`.
pub fn get_app_info(meta: &AppMeta) -> (r: (AppResult<AppInfo>, LogRecord))
    ensures
        r.0 matches Ok(info) && info.version == meta.version && info.name == meta.name
            && info.authors == meta.authors && info.description == meta.description
            && info.system_info.os == meta.os && info.system_info.arch == meta.arch
            && info.system_info.cpu_count >= 1 && is_rfc3339_datetime(info.timestamp@),
        r.1.wf(),
        r.1.level == LogLevel::Info,
        r.1.target@ == "get_app_info"@,
        r.1.message@ == "获取应用信息"@,
{
    let clock = now_clock();
    let stamp = Timestamp::from_clock(&clock);
    let timestamp = crate::time::rfc3339_string(&stamp, clock.offset_seconds);
    proof {
        lemma_rfc3339_of_valid(stamp, clock.offset_seconds as int);
    }
    let info = AppInfo {
        version: meta.version.clone(),
        name: meta.name.clone(),
        authors: meta.authors.clone(),
        description: meta.description.clone(),
        system_info: SystemInfo {
            os: meta.os.clone(),
            arch: meta.arch.clone(),
            cpu_count: cpu_count(),
        },
        timestamp,
    };
    let rec = LogRecord {
        level: LogLevel::Info,
        target: String::from_str("get_app_info"),
        message: String::from_str("获取应用信息"),
        stamp,
    };
    (Ok(info), rec)
}

/// Whether a lowercased level string names one of the four severities.
pub open spec fn recognized_level(lowered: Seq<char>) -> bool {
    lowered == "debug"@ || lowered == "info"@ || lowered == "warn"@ || lowered == "error"@
}

/// The severity a lowercased level string dispatches to: the matching one,
/// and `Warn` for anything unrecognized.
pub open spec fn level_for(lowered: Seq<char>) -> LogLevel {
    if lowered == "debug"@ {
        LogLevel::Debug
    } else if lowered == "info"@ {
        LogLevel::Info
    } else if lowered == "warn"@ {
        LogLevel::Warn
    } else if lowered == "error"@ {
        LogLevel::Error
    } else {
        LogLevel::Warn
    }
}

/// The record message for an unrecognized level: it embeds the level string
/// as given and the original message, so the event is never silently
/// dropped.
pub open spec fn unknown_level_message(original: Seq<char>, message: Seq<char>) -> Seq<char> {
    "未知日志级别: "@ + original + ", 消息: "@ + message
}

/// The message a dispatched record carries: the message itself for a
/// recognized level, and the anomaly text otherwise.
pub open spec fn dispatch_message(original: Seq<char>, lowered: Seq<char>, message: Seq<char>) -> Seq<
    char,
> {
    if recognized_level(lowered) {
        message
    } else {
        unknown_level_message(original, message)
    }
}

/// The record for one `log_to_file` call, given the level string as the
/// caller wrote it and its lowercased form.
pub fn dispatch_record(original_level: &str, lowered: &str, message: &str, stamp: Timestamp) -> (rec:
    LogRecord)
    ensures
        rec.level == level_for(lowered@),
        rec.message@ == dispatch_message(original_level@, lowered@, message@),
        rec.target@ == "log_to_file"@,
        rec.stamp == stamp,
{
    let target = String::from_str("log_to_file");
    let level = if str_eq(lowered, "debug") {
        Some(LogLevel::Debug)
    } else if str_eq(lowered, "info") {
        Some(LogLevel::Info)
    } else if str_eq(lowered, "warn") {
        Some(LogLevel::Warn)
    } else if str_eq(lowered, "error") {
        Some(LogLevel::Error)
    } else {
        None
    };
    match level {
        Some(level) => LogRecord { level, target, message: String::from_str(message), stamp },
        None => {
            let mut anomaly = String::from_str("未知日志级别: ");
            anomaly.append(original_level);
            anomaly.append(", 消息: ");
            anomaly.append(message);
            LogRecord { level: LogLevel::Warn, target, message: anomaly, stamp }
        },
    }
}

/// Emits a message at the severity named by `level`, compared after
/// lowercasing. An unrecognized level is absorbed: the record goes out at
/// `Warn` carrying both the level string and the message, and the call
/// still succeeds — it always returns success.
pub fn log_to_file(level: &str, message: &str) -> (r: (AppResult<()>, LogRecord))
    ensures
        r.0 is Ok,
        r.1.wf(),
        r.1.level == level_for(lower_of(level@)),
        r.1.message@ == dispatch_message(level@, lower_of(level@), message@),
        r.1.target@ == "log_to_file"@,
{
    let lowered = lowercase(level);
    let clock = now_clock();
    let stamp = Timestamp::from_clock(&clock);
    let rec = dispatch_record(level, lowered.as_str(), message, stamp);
    (Ok(()), rec)
}

/// The anomaly text for an unrecognized level embeds the level string
/// unchanged from position 8 and the original message at the end: neither
/// is lost.
pub proof fn lemma_unknown_level_message(original: Seq<char>, message: Seq<char>)
    ensures
        unknown_level_message(original, message).len() == original.len() + message.len() + 14,
        unknown_level_message(original, message).subrange(8, 8 + original.len() as int)
            == original,
        unknown_level_message(original, message).subrange(
            original.len() as int + 14,
            unknown_level_message(original, message).len() as int,
        ) == message,
{
    reveal_strlit("未知日志级别: ");
    reveal_strlit(", 消息: ");
    assert(unknown_level_message(original, message).subrange(8, 8 + original.len() as int)
        =~= original);
    assert(unknown_level_message(original, message).subrange(
        original.len() as int + 14,
        unknown_level_message(original, message).len() as int,
    ) =~= message);
}

} // verus!
