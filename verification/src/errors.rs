//! The closed error taxonomy: every failure at the command boundary is one
//! of four kinds, each carrying a human-readable message.
use vstd::prelude::*;
use vstd::string::StringExecFns;

verus! {

/// A failure at the command boundary. The set of kinds is closed: no other
/// failure representation crosses the boundary.
#[derive(Debug, Clone)]
pub enum AppError {
    GeneralError(String),
    ValidationError(String),
    IOError(String),
    NetworkError(String),
}

/// Every command returns a success value or a typed [`AppError`].
pub type AppResult<T> = Result<T, AppError>;

/// The message carried by an error, whatever its kind.
pub open spec fn message_of(e: AppError) -> Seq<char> {
    match e {
        AppError::GeneralError(m) => m@,
        AppError::ValidationError(m) => m@,
        AppError::IOError(m) => m@,
        AppError::NetworkError(m) => m@,
    }
}

/// The transport-neutral tag naming an error's kind.
pub open spec fn kind_label_of(e: AppError) -> Seq<char> {
    match e {
        AppError::GeneralError(_) => "general"@,
        AppError::ValidationError(_) => "validation"@,
        AppError::IOError(_) => "io"@,
        AppError::NetworkError(_) => "network"@,
    }
}

/// The human-readable rendering of an error: a fixed kind label, then the
/// message.
pub open spec fn render_of(e: AppError) -> Seq<char> {
    match e {
        AppError::GeneralError(m) => "一般错误: "@ + m@,
        AppError::ValidationError(m) => "验证错误: "@ + m@,
        AppError::IOError(m) => "IO错误: "@ + m@,
        AppError::NetworkError(m) => "网络错误: "@ + m@,
    }
}

impl AppError {
    /// The deterministic human-readable text for this error: kind label
    /// first, then the message.
    pub fn render(&self) -> (s: String)
        ensures
            s@ == render_of(*self),
    {
        match self {
            AppError::GeneralError(m) => String::from_str("一般错误: ").concat(m.as_str()),
            AppError::ValidationError(m) => String::from_str("验证错误: ").concat(m.as_str()),
            AppError::IOError(m) => String::from_str("IO错误: ").concat(m.as_str()),
            AppError::NetworkError(m) => String::from_str("网络错误: ").concat(m.as_str()),
        }
    }

    /// The kind tag of this error, for a transport-neutral structured form.
    pub fn kind_label(&self) -> (s: &'static str)
        ensures
            s@ == kind_label_of(*self),
    {
        match self {
            AppError::GeneralError(_) => "general",
            AppError::ValidationError(_) => "validation",
            AppError::IOError(_) => "io",
            AppError::NetworkError(_) => "network",
        }
    }

    /// The message of this error, without its kind label.
    pub fn message(&self) -> (m: &String)
        ensures
            m@ == message_of(*self),
    {
        match self {
            AppError::GeneralError(m) => m,
            AppError::ValidationError(m) => m,
            AppError::IOError(m) => m,
            AppError::NetworkError(m) => m,
        }
    }

    /// A lower-level I/O failure, given by its description, always becomes
    /// the `IOError` kind.
    pub fn from_io_message(message: String) -> (e: AppError)
        ensures
            e == AppError::IOError(message),
    {
        AppError::IOError(message)
    }
}

} // verus!
