//! Unified error type of the pipeline and the total mapping from errors to
//! the metric categories that completion records carry.

use vstd::prelude::*;

verus! {

/// Application-wide error taxonomy.  Each variant carries its detail message;
/// errors that outside collaborators produce (network, database, IO,
/// serialization) arrive here already rendered to text by the caller.
#[derive(Debug, Clone)]
pub enum AppError {
    /// Configuration is missing or invalid.
    Config(String),
    /// The translation API answered with an error.
    LlmApi(String),
    /// A network request failed.
    Network(String),
    /// A database operation failed.
    Database(String),
    /// A clipboard read, write or verify failed.
    Clipboard(String),
    /// A hotkey could not be registered or parsed.
    Hotkey(String),
    /// The operating system denied input simulation.
    Permission(String),
    /// Simulating a key sequence failed.
    Keyboard(String),
    /// An IO operation failed.
    Io(String),
    /// Serializing or deserializing failed.
    Serialization(String),
    /// Any other failure.
    Other(String),
}

/// Metric category of an error, an explicit enumeration instead of loose
/// strings: the orchestrator tags every failed run with one of these.
#[derive(Debug, Clone, Copy, PartialEq, Eq, Structural)]
pub enum ErrorCategory {
    Network,
    Api,
    Config,
    Other,
}

/// The message prefix each error variant is displayed with.
pub open spec fn spec_prefix(e: AppError) -> Seq<char> {
    match e {
        AppError::Config(_) => "配置错误: "@,
        AppError::LlmApi(_) => "LLM API 错误: "@,
        AppError::Network(_) => "网络请求失败: "@,
        AppError::Database(_) => "数据库错误: "@,
        AppError::Clipboard(_) => "剪贴板操作失败: "@,
        AppError::Hotkey(_) => "热键错误: "@,
        AppError::Permission(_) => "权限不足: "@,
        AppError::Keyboard(_) => "键盘模拟失败: "@,
        AppError::Io(_) => "IO 错误: "@,
        AppError::Serialization(_) => "序列化错误: "@,
        AppError::Other(_) => ""@,
    }
}

/// The detail message an error carries.
pub open spec fn spec_detail(e: AppError) -> Seq<char> {
    match e {
        AppError::Config(m) => m@,
        AppError::LlmApi(m) => m@,
        AppError::Network(m) => m@,
        AppError::Database(m) => m@,
        AppError::Clipboard(m) => m@,
        AppError::Hotkey(m) => m@,
        AppError::Permission(m) => m@,
        AppError::Keyboard(m) => m@,
        AppError::Io(m) => m@,
        AppError::Serialization(m) => m@,
        AppError::Other(m) => m@,
    }
}

/// The full display text of an error: its prefix followed by its detail.
pub open spec fn spec_message(e: AppError) -> Seq<char> {
    spec_prefix(e) + spec_detail(e)
}

/// The metric category an error maps to.  Total: every variant has one.
pub open spec fn spec_category(e: AppError) -> ErrorCategory {
    match e {
        AppError::Network(_) => ErrorCategory::Network,
        AppError::LlmApi(_) => ErrorCategory::Api,
        AppError::Config(_) => ErrorCategory::Config,
        _ => ErrorCategory::Other,
    }
}

impl AppError {
    /// Renders the error for display or IPC, prefix then detail.
    pub fn message(&self) -> (r: String)
        ensures
            r@ == spec_message(*self),
    {
        let (p, m): (&str, &str) = match self {
            AppError::Config(m) => ("配置错误: ", m.as_str()),
            AppError::LlmApi(m) => ("LLM API 错误: ", m.as_str()),
            AppError::Network(m) => ("网络请求失败: ", m.as_str()),
            AppError::Database(m) => ("数据库错误: ", m.as_str()),
            AppError::Clipboard(m) => ("剪贴板操作失败: ", m.as_str()),
            AppError::Hotkey(m) => ("热键错误: ", m.as_str()),
            AppError::Permission(m) => ("权限不足: ", m.as_str()),
            AppError::Keyboard(m) => ("键盘模拟失败: ", m.as_str()),
            AppError::Io(m) => ("IO 错误: ", m.as_str()),
            AppError::Serialization(m) => ("序列化错误: ", m.as_str()),
            AppError::Other(m) => ("", m.as_str()),
        };
        let mut s = String::from_str(p);
        s.append(m);
        s
    }

    /// Maps the error to its metric category.
    pub fn category(&self) -> (r: ErrorCategory)
        ensures
            r == spec_category(*self),
    {
        match self {
            AppError::Network(_) => ErrorCategory::Network,
            AppError::LlmApi(_) => ErrorCategory::Api,
            AppError::Config(_) => ErrorCategory::Config,
            _ => ErrorCategory::Other,
        }
    }
}

/// The label a metric category is stored under.
pub open spec fn spec_category_label(c: ErrorCategory) -> Seq<char> {
    match c {
        ErrorCategory::Network => "network"@,
        ErrorCategory::Api => "api"@,
        ErrorCategory::Config => "config"@,
        ErrorCategory::Other => "other"@,
    }
}

impl ErrorCategory {
    /// The label this category is stored under in metric records.
    pub fn label(&self) -> (r: &'static str)
        ensures
            r@ == spec_category_label(*self),
    {
        match self {
            ErrorCategory::Network => "network",
            ErrorCategory::Api => "api",
            ErrorCategory::Config => "config",
            ErrorCategory::Other => "other",
        }
    }
}

/// The variant of an error, at the specification level.
pub ghost enum ErrKind {
    Config,
    LlmApi,
    Network,
    Database,
    Clipboard,
    Hotkey,
    Permission,
    Keyboard,
    Io,
    Serialization,
    Other,
}

/// Specification-level image of an error: its variant and detail message.
pub ghost struct ErrModel {
    /// Which variant the error is.
    pub kind: ErrKind,
    /// The detail message it carries.
    pub msg: Seq<char>,
}

/// The specification-level image of `e`.
pub open spec fn err_model(e: AppError) -> ErrModel {
    let kind = match e {
        AppError::Config(_) => ErrKind::Config,
        AppError::LlmApi(_) => ErrKind::LlmApi,
        AppError::Network(_) => ErrKind::Network,
        AppError::Database(_) => ErrKind::Database,
        AppError::Clipboard(_) => ErrKind::Clipboard,
        AppError::Hotkey(_) => ErrKind::Hotkey,
        AppError::Permission(_) => ErrKind::Permission,
        AppError::Keyboard(_) => ErrKind::Keyboard,
        AppError::Io(_) => ErrKind::Io,
        AppError::Serialization(_) => ErrKind::Serialization,
        AppError::Other(_) => ErrKind::Other,
    };
    ErrModel { kind, msg: spec_detail(e) }
}

/// Turning an absent value into a categorized error.
pub trait OptionExt<T>: Sized {
    /// The optional value the receiver stands for.
    spec fn optional(self) -> Option<T>;

    /// `Ok` of the value when present, else a `Config` error with `msg`.
    fn ok_or_config(self, msg: &str) -> (r: Result<T, AppError>)
        ensures
            self.optional() matches Some(v) ==> r == Ok::<T, AppError>(v),
            self.optional() is None ==> (r matches Err(e) && e matches AppError::Config(m)
                && m@ == msg@),
    ;

    /// `Ok` of the value when present, else an `Other` error with `msg`.
    fn ok_or_other(self, msg: &str) -> (r: Result<T, AppError>)
        ensures
            self.optional() matches Some(v) ==> r == Ok::<T, AppError>(v),
            self.optional() is None ==> (r matches Err(e) && e matches AppError::Other(m)
                && m@ == msg@),
    ;
}

impl<T> OptionExt<T> for Option<T> {
    open spec fn optional(self) -> Option<T> {
        self
    }

    fn ok_or_config(self, msg: &str) -> (r: Result<T, AppError>) {
        match self {
            Some(v) => Ok(v),
            None => Err(AppError::Config(msg.to_owned())),
        }
    }

    fn ok_or_other(self, msg: &str) -> (r: Result<T, AppError>) {
        match self {
            Some(v) => Ok(v),
            None => Err(AppError::Other(msg.to_owned())),
        }
    }
}

} // verus!
