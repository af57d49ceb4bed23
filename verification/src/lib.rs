//! A small application backend core: a closed error taxonomy, a structured
//! logging pipeline (severity filtering, line formatting, log-file path
//! resolution), and three command operations (`greet`, `get_app_info`,
//! `log_to_file`) that validate their input and report every call as a
//! structured log record.
#![allow(unused_imports)]

pub mod commands;
pub mod errors;
pub mod level;
pub mod record;
pub mod setup;
pub mod text;
pub mod time;
