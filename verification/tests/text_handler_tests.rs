use quicktrans::error::AppError;
use quicktrans::text_handler::{
    failure_error, CaptureAction, CaptureEvent, CaptureFailure, SimFailure, TextHandler,
};

fn read_ok(s: &str) -> CaptureEvent {
    CaptureEvent::ReadResult(Ok(s.to_string()))
}

fn write_ok() -> CaptureEvent {
    CaptureEvent::WriteResult(Ok(()))
}

fn sim_ok() -> CaptureEvent {
    CaptureEvent::SimResult(Ok(()))
}

#[test]
fn test_text_handler_creation() {
    let handler = TextHandler::new();
    assert!(handler.is_ok());
}

// Happy path of a selected capture: backup, sentinel, copy, first poll sees
// the copied text, and the backup is retained for a later rollback.
#[test]
fn selected_capture_returns_copied_text() {
    let mut h = TextHandler::new().unwrap();
    assert!(matches!(h.begin_selected(), CaptureAction::ReadOnce));
    assert!(matches!(h.on_event(read_ok("OLD")), CaptureAction::WriteSentinel));
    assert!(matches!(h.on_event(write_ok()), CaptureAction::SleepMs(50)));
    assert!(matches!(h.on_event(CaptureEvent::Slept), CaptureAction::SimCopy));
    assert!(matches!(h.on_event(sim_ok()), CaptureAction::SleepMs(100)));
    assert!(matches!(h.on_event(CaptureEvent::Slept), CaptureAction::ReadOnce));
    match h.on_event(read_ok("hello")) {
        CaptureAction::Finish(Ok(t)) => assert_eq!(t, "hello"),
        a => panic!("expected success, got {:?}", a),
    }
    assert_eq!(h.get_backup(), Some("OLD".to_string()));
}

// Scenario: the clipboard is cleared to the sentinel, the copy is simulated,
// and the clipboard never changes through the three poll rounds: the run
// fails with the copy error and the pre-run backup is written back first.
#[test]
fn selected_capture_unchanged_clipboard_fails_and_restores() {
    let mut h = TextHandler::new().unwrap();
    assert!(matches!(h.begin_selected(), CaptureAction::ReadOnce));
    assert!(matches!(h.on_event(read_ok("BACKUP")), CaptureAction::WriteSentinel));
    assert!(matches!(h.on_event(write_ok()), CaptureAction::SleepMs(50)));
    assert!(matches!(h.on_event(CaptureEvent::Slept), CaptureAction::SimCopy));
    assert!(matches!(h.on_event(sim_ok()), CaptureAction::SleepMs(100)));
    assert!(matches!(h.on_event(CaptureEvent::Slept), CaptureAction::ReadOnce));
    assert!(matches!(h.on_event(read_ok("")), CaptureAction::SleepMs(150)));
    assert!(matches!(h.on_event(CaptureEvent::Slept), CaptureAction::ReadOnce));
    assert!(matches!(h.on_event(read_ok("")), CaptureAction::SleepMs(200)));
    assert!(matches!(h.on_event(CaptureEvent::Slept), CaptureAction::ReadOnce));
    assert!(matches!(h.on_event(read_ok("")), CaptureAction::ReadOnce));
    match h.on_event(read_ok("")) {
        CaptureAction::WriteBackup(b) => assert_eq!(b, "BACKUP"),
        a => panic!("expected the restore write, got {:?}", a),
    }
    match h.on_event(write_ok()) {
        CaptureAction::Finish(Err(f)) => {
            assert!(matches!(f, CaptureFailure::CopyNothing));
            assert_eq!(failure_error(&f).message(), "剪贴板操作失败: 复制失败");
        }
        a => panic!("expected the failure report, got {:?}", a),
    }
    assert_eq!(h.get_backup(), None);
}

#[test]
fn selected_capture_blank_text_is_refused() {
    let mut h = TextHandler::new().unwrap();
    h.begin_selected();
    assert!(matches!(h.on_event(read_ok("OLD")), CaptureAction::WriteSentinel));
    assert!(matches!(h.on_event(write_ok()), CaptureAction::SleepMs(50)));
    assert!(matches!(h.on_event(CaptureEvent::Slept), CaptureAction::SimCopy));
    assert!(matches!(h.on_event(sim_ok()), CaptureAction::SleepMs(100)));
    assert!(matches!(h.on_event(CaptureEvent::Slept), CaptureAction::ReadOnce));
    match h.on_event(read_ok("  \t ")) {
        CaptureAction::WriteBackup(b) => assert_eq!(b, "OLD"),
        a => panic!("expected the restore write, got {:?}", a),
    }
    match h.on_event(write_ok()) {
        CaptureAction::Finish(Err(f)) => {
            assert!(matches!(f, CaptureFailure::OnlyWhitespace));
            assert_eq!(failure_error(&f).message(), "剪贴板操作失败: 没有选中有效文本");
        }
        a => panic!("expected the failure report, got {:?}", a),
    }
}

// Full mode adds the select-all simulation and its settle delay before the
// copy; an empty field yields the full-mode error.
#[test]
fn full_capture_selects_all_first() {
    let mut h = TextHandler::new().unwrap();
    assert!(matches!(h.begin_full(), CaptureAction::ReadOnce));
    assert!(matches!(h.on_event(read_ok("OLD")), CaptureAction::WriteSentinel));
    assert!(matches!(h.on_event(write_ok()), CaptureAction::SleepMs(50)));
    assert!(matches!(h.on_event(CaptureEvent::Slept), CaptureAction::SimSelectAll));
    assert!(matches!(h.on_event(sim_ok()), CaptureAction::SleepMs(150)));
    assert!(matches!(h.on_event(CaptureEvent::Slept), CaptureAction::SimCopy));
    assert!(matches!(h.on_event(sim_ok()), CaptureAction::SleepMs(100)));
    assert!(matches!(h.on_event(CaptureEvent::Slept), CaptureAction::ReadOnce));
    match h.on_event(read_ok("field text")) {
        CaptureAction::Finish(Ok(t)) => assert_eq!(t, "field text"),
        a => panic!("expected success, got {:?}", a),
    }
}

#[test]
fn denied_key_simulation_restores_and_reports_permission() {
    let mut h = TextHandler::new().unwrap();
    h.begin_selected();
    assert!(matches!(h.on_event(read_ok("OLD")), CaptureAction::WriteSentinel));
    assert!(matches!(h.on_event(write_ok()), CaptureAction::SleepMs(50)));
    assert!(matches!(h.on_event(CaptureEvent::Slept), CaptureAction::SimCopy));
    match h.on_event(CaptureEvent::SimResult(Err(SimFailure::Denied))) {
        CaptureAction::WriteBackup(b) => assert_eq!(b, "OLD"),
        a => panic!("expected the restore write, got {:?}", a),
    }
    match h.on_event(write_ok()) {
        CaptureAction::Finish(Err(f)) => match failure_error(&f) {
            AppError::Permission(m) => {
                assert_eq!(m, "键盘模拟失败，请在系统设置 > 隐私与安全性 > 辅助功能中授权本应用")
            }
            e => panic!("expected a permission error, got {:?}", e),
        },
        a => panic!("expected the failure report, got {:?}", a),
    }
}

// A failing clipboard read is retried twice with a pause between attempts;
// after three failures the backup is simply absent.
#[test]
fn backup_read_retries_three_times() {
    let mut h = TextHandler::new().unwrap();
    h.begin_selected();
    let err = || CaptureEvent::ReadResult(Err("no clipboard".to_string()));
    assert!(matches!(h.on_event(err()), CaptureAction::SleepMs(50)));
    assert!(matches!(h.on_event(CaptureEvent::Slept), CaptureAction::ReadOnce));
    assert!(matches!(h.on_event(err()), CaptureAction::SleepMs(50)));
    assert!(matches!(h.on_event(CaptureEvent::Slept), CaptureAction::ReadOnce));
    assert!(matches!(h.on_event(err()), CaptureAction::WriteSentinel));
    assert_eq!(h.get_backup(), None);
}

#[test]
fn clear_backup_forgets_the_run() {
    let mut h = TextHandler::new().unwrap();
    h.begin_selected();
    h.on_event(read_ok("OLD"));
    assert_eq!(h.get_backup(), Some("OLD".to_string()));
    h.clear_backup();
    assert_eq!(h.get_backup(), None);
}
