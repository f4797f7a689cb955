use quicktrans::error::{AppError, ErrorCategory, OptionExt};

#[test]
fn test_error_display() {
    let err = AppError::Config("test error".to_string());
    assert_eq!(err.message(), "配置错误: test error");
}

#[test]
fn test_error_to_string() {
    let err = AppError::LlmApi("API key invalid".to_string());
    let s: String = err.message();
    assert!(s.contains("API key invalid"));
}

#[test]
fn error_messages_carry_their_prefix() {
    assert_eq!(AppError::Clipboard("x".to_string()).message(), "剪贴板操作失败: x");
    assert_eq!(AppError::Permission("x".to_string()).message(), "权限不足: x");
    assert_eq!(AppError::Keyboard("x".to_string()).message(), "键盘模拟失败: x");
    assert_eq!(AppError::Network("x".to_string()).message(), "网络请求失败: x");
    assert_eq!(AppError::Hotkey("x".to_string()).message(), "热键错误: x");
    assert_eq!(AppError::Database("x".to_string()).message(), "数据库错误: x");
    assert_eq!(AppError::Io("x".to_string()).message(), "IO 错误: x");
    assert_eq!(AppError::Serialization("x".to_string()).message(), "序列化错误: x");
    assert_eq!(AppError::Other("plain".to_string()).message(), "plain");
}

#[test]
fn error_categories_are_total() {
    assert_eq!(AppError::Network("x".to_string()).category(), ErrorCategory::Network);
    assert_eq!(AppError::LlmApi("x".to_string()).category(), ErrorCategory::Api);
    assert_eq!(AppError::Config("x".to_string()).category(), ErrorCategory::Config);
    assert_eq!(AppError::Clipboard("x".to_string()).category(), ErrorCategory::Other);
    assert_eq!(AppError::Permission("x".to_string()).category(), ErrorCategory::Other);
    assert_eq!(AppError::Keyboard("x".to_string()).category(), ErrorCategory::Other);
    assert_eq!(ErrorCategory::Network.label(), "network");
    assert_eq!(ErrorCategory::Api.label(), "api");
    assert_eq!(ErrorCategory::Config.label(), "config");
    assert_eq!(ErrorCategory::Other.label(), "other");
}

#[test]
fn option_ext_maps_absence() {
    let present: Option<u32> = Some(7);
    assert!(matches!(present.ok_or_config("missing"), Ok(7)));
    let absent: Option<u32> = None;
    match absent.ok_or_config("missing") {
        Err(AppError::Config(m)) => assert_eq!(m, "missing"),
        _ => panic!("expected a config error"),
    }
    let absent: Option<u32> = None;
    match absent.ok_or_other("gone") {
        Err(AppError::Other(m)) => assert_eq!(m, "gone"),
        _ => panic!("expected an other error"),
    }
}
