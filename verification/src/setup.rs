//! Resolution of the log file destination, done once at startup.
//!
//! Development builds log to a fixed file in the working directory. In
//! production the platform's per-application data directory is consulted
//! (through the `directories` crate); when it cannot be resolved, a fixed
//! file in the working directory is the fallback.
use crate::level::LogMode;
use vstd::prelude::*;
use vstd::string::StringExecFns;

verus! {

/// Relies on `directories::ProjectDirs::from("com", "uoomibl", "app")` and
/// `ProjectDirs::data_dir`: the platform's per-application data directory
/// for this application, if one can be resolved from the environment.
#[verifier::external_body]
fn platform_data_dir() -> (d: Option<String>) {
    match directories::ProjectDirs::from("com", "uoomibl", "app") {
        Some(p) => Some(p.data_dir().to_string_lossy().into_owned()),
        None => None,
    }
}

/// The log destination for a build mode, given the platform data directory
/// if one was resolved: the directory that must exist first (if any), and
/// the file path to open.
pub fn log_file_plan(mode: LogMode, data_dir: Option<String>) -> (plan: (Option<String>, String))
    ensures
        mode == LogMode::Development ==> plan.0 is None && plan.1@ == "uoomibl-dev.log"@,
        mode == LogMode::Production ==> (match data_dir {
            Some(d) => plan.0 == Some(d) && plan.1@ == d@ + "/app.log"@,
            None => plan.0 is None && plan.1@ == "uoomibl.log"@,
        }),
{
    match mode {
        LogMode::Development => (None, String::from_str("uoomibl-dev.log")),
        LogMode::Production => match data_dir {
            Some(d) => {
                let mut path = d.clone();
                path.append("/app.log");
                (Some(d), path)
            },
            None => (None, String::from_str("uoomibl.log")),
        },
    }
}

/// The log destination of this process: the fixed development file in
/// development mode; in production, `app.log` under the platform data
/// directory, or the fixed fallback file when no such directory resolves.
pub fn resolve_log_file_plan(mode: LogMode) -> (plan: (Option<String>, String))
    ensures
        mode == LogMode::Development ==> plan.0 is None && plan.1@ == "uoomibl-dev.log"@,
        mode == LogMode::Production ==> (plan.1@ == "uoomibl.log"@ || (plan.0 matches Some(p)
            && plan.1@ == p@ + "/app.log"@)),
{
    let data_dir = match mode {
        LogMode::Development => None,
        LogMode::Production => platform_data_dir(),
    };
    log_file_plan(mode, data_dir)
}

} // verus!
