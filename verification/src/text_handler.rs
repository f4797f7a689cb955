//! The clipboard-mediated text exchange protocol.
//!
//! The system clipboard is shared with every other application, so the
//! capture protocol treats it as unreliable: it backs the clipboard up,
//! clears it to a sentinel, simulates a copy, polls with retries until the
//! clipboard changes, and restores the backup whenever the run fails.  All
//! of that policy lives here as a verified state machine; the driver only
//! performs the emitted actions (a single clipboard read or write, a
//! simulated key sequence, a sleep) and feeds the outcome back in.  The two
//! single-attempt clipboard primitives are the only trusted calls.

use vstd::prelude::*;
use crate::textops::spec_is_blank;
use crate::textops::is_blank_str;
use crate::error::AppError;
use crate::error::ErrKind;
use crate::error::ErrModel;
use crate::error::err_model;

verus! {

/// Maximum attempts for one clipboard read or write.
pub const CLIPBOARD_MAX_RETRIES: u8 = 3;

/// Delay between two attempts of the same clipboard operation, in
/// milliseconds.
pub const CLIPBOARD_RETRY_DELAY_MS: u64 = 50;

/// Reads the system clipboard once.
///
/// Relies on arboard::Clipboard::new and arboard::Clipboard::get_text: the
/// result is whatever text the OS clipboard holds at call time, so nothing
/// is promised of the value.
#[verifier::external_body]
pub fn try_get_clipboard() -> (r: Result<String, String>) {
    match arboard::Clipboard::new() {
        Ok(mut cb) => match cb.get_text() {
            Ok(t) => Ok(t),
            Err(e) => Err(format!("无法读取剪贴板: {}", e)),
        },
        Err(e) => Err(format!("无法访问剪贴板: {}", e)),
    }
}

/// Writes the system clipboard once.
///
/// Relies on arboard::Clipboard::new and arboard::Clipboard::set_text: an
/// `Ok` means the OS accepted the write; another application may overwrite
/// the clipboard at any later time, so nothing more is promised.
#[verifier::external_body]
pub fn try_set_clipboard(text: &str) -> (r: Result<(), String>) {
    match arboard::Clipboard::new() {
        Ok(mut cb) => match cb.set_text(text.to_owned()) {
            Ok(()) => Ok(()),
            Err(e) => Err(format!("无法设置剪贴板: {}", e)),
        },
        Err(e) => Err(format!("无法访问剪贴板: {}", e)),
    }
}

/// Which text a capture run extracts.
#[derive(Debug, Clone, Copy, PartialEq, Eq, Structural)]
pub enum CaptureMode {
    /// The current selection, copied as it is.
    Selected,
    /// The whole focused field: select all, then copy.
    Full,
}

/// How a simulated key sequence failed.
#[derive(Debug)]
pub enum SimFailure {
    /// The simulation command could not be run at all; carries the spawn
    /// error text.
    Spawn(String),
    /// The command ran and was refused, which means the OS denies input
    /// simulation rights.
    Denied,
}

/// Why a capture run failed.
#[derive(Debug)]
pub enum CaptureFailure {
    /// The clipboard never left the sentinel: the copy put nothing there.
    CopyNothing,
    /// The copy landed but the text is whitespace only.
    OnlyWhitespace,
    /// Select-all plus copy yielded nothing in full mode.
    FullNothing,
    /// The clipboard could not be read even after all retries; carries the
    /// last read error.
    ReadFailed(String),
    /// A simulated key sequence failed.
    SimFailed(SimFailure),
}

impl Clone for SimFailure {
    /// An exact copy.
    fn clone(&self) -> (r: Self)
        ensures
            r == *self,
    {
        match self {
            SimFailure::Spawn(m) => SimFailure::Spawn(m.clone()),
            SimFailure::Denied => SimFailure::Denied,
        }
    }
}

impl Clone for CaptureFailure {
    /// An exact copy.
    fn clone(&self) -> (r: Self)
        ensures
            r == *self,
    {
        match self {
            CaptureFailure::CopyNothing => CaptureFailure::CopyNothing,
            CaptureFailure::OnlyWhitespace => CaptureFailure::OnlyWhitespace,
            CaptureFailure::FullNothing => CaptureFailure::FullNothing,
            CaptureFailure::ReadFailed(m) => CaptureFailure::ReadFailed(m.clone()),
            CaptureFailure::SimFailed(s) => CaptureFailure::SimFailed(s.clone()),
        }
    }
}

/// The specification-level error a capture failure maps to.
pub open spec fn failure_model(f: CaptureFailure) -> ErrModel {
    match f {
        CaptureFailure::CopyNothing => ErrModel { kind: ErrKind::Clipboard, msg: "复制失败"@ },
        CaptureFailure::OnlyWhitespace => ErrModel {
            kind: ErrKind::Clipboard,
            msg: "没有选中有效文本"@,
        },
        CaptureFailure::FullNothing => ErrModel {
            kind: ErrKind::Clipboard,
            msg: "全选或复制失败，没有获取到文本"@,
        },
        CaptureFailure::ReadFailed(m) => ErrModel { kind: ErrKind::Clipboard, msg: m@ },
        CaptureFailure::SimFailed(s) => match s {
            SimFailure::Spawn(m) => ErrModel {
                kind: ErrKind::Keyboard,
                msg: "无法执行 osascript: "@ + m@,
            },
            SimFailure::Denied => ErrModel {
                kind: ErrKind::Permission,
                msg: "键盘模拟失败，请在系统设置 > 隐私与安全性 > 辅助功能中授权本应用"@,
            },
        },
    }
}

/// Renders a capture failure as the application error it stands for.
pub fn failure_error(f: &CaptureFailure) -> (r: AppError)
    ensures
        err_model(r) == failure_model(*f),
{
    match f {
        CaptureFailure::CopyNothing => AppError::Clipboard(String::from_str("复制失败")),
        CaptureFailure::OnlyWhitespace => AppError::Clipboard(
            String::from_str("没有选中有效文本"),
        ),
        CaptureFailure::FullNothing => AppError::Clipboard(
            String::from_str("全选或复制失败，没有获取到文本"),
        ),
        CaptureFailure::ReadFailed(m) => AppError::Clipboard(m.clone()),
        CaptureFailure::SimFailed(s) => match s {
            SimFailure::Spawn(m) => {
                let mut t = String::from_str("无法执行 osascript: ");
                t.append(m.as_str());
                AppError::Keyboard(t)
            },
            SimFailure::Denied => AppError::Permission(
                String::from_str("键盘模拟失败，请在系统设置 > 隐私与安全性 > 辅助功能中授权本应用"),
            ),
        },
    }
}

/// What the capture machine asks the driver to do next.
#[derive(Debug)]
pub enum CaptureAction {
    /// Read the clipboard once and answer with `ReadResult`.
    ReadOnce,
    /// Write the empty sentinel to the clipboard once; answer with
    /// `WriteResult`.
    WriteSentinel,
    /// Write the given backup text to the clipboard once; answer with
    /// `WriteResult`.
    WriteBackup(String),
    /// Simulate select-all; answer with `SimResult`.
    SimSelectAll,
    /// Simulate copy; answer with `SimResult`.
    SimCopy,
    /// Sleep this many milliseconds; answer with `Slept`.
    SleepMs(u64),
    /// The run is over with this outcome; no answer expected.
    Finish(Result<String, CaptureFailure>),
    /// The event was not the one awaited; it was ignored.
    Continue,
}

/// What the driver reports back to the capture machine.
#[derive(Debug)]
pub enum CaptureEvent {
    /// Outcome of a single clipboard read.
    ReadResult(Result<String, String>),
    /// Outcome of a single clipboard write.
    WriteResult(Result<(), String>),
    /// Outcome of a simulated key sequence.
    SimResult(Result<(), SimFailure>),
    /// A requested sleep has elapsed.
    Slept,
}

/// Where the capture machine stands.
#[derive(Debug, Clone)]
pub enum CapturePhase {
    /// No run is in progress.
    Idle,
    /// Reading the clipboard to take the backup; `attempt` reads failed
    /// before this one.
    BackupRead { attempt: u8 },
    /// Sleeping before retrying the backup read.
    BackupRetrySleep { attempt: u8 },
    /// Writing the empty sentinel.
    SentinelWrite { attempt: u8 },
    /// Sleeping before retrying the sentinel write.
    SentinelRetrySleep { attempt: u8 },
    /// Letting the sentinel settle before simulating keys.
    SentinelSettle,
    /// Simulating select-all (full mode only).
    SelectAllSim,
    /// Letting the selection settle after select-all.
    SelectAllSettle,
    /// Simulating copy.
    CopySim,
    /// Sleeping before polling the clipboard; `round` polls happened.
    WaitSleep { round: u8 },
    /// Polling the clipboard for a change away from the sentinel.
    WaitRead { round: u8, attempt: u8 },
    /// Sleeping before retrying one poll read.
    WaitRetrySleep { round: u8, attempt: u8 },
    /// The polls are exhausted; reading the clipboard one last time.
    FinalRead { attempt: u8 },
    /// Sleeping before retrying the last read.
    FinalRetrySleep { attempt: u8 },
    /// Restoring the backup before reporting `fail`.
    RestoreWrite { attempt: u8, fail: CaptureFailure },
    /// Sleeping before retrying the restore write.
    RestoreRetrySleep { attempt: u8, fail: CaptureFailure },
    /// The run has finished and its outcome has been reported.
    Finished,
}

/// The capture side of the text handler: the clipboard backup of the run in
/// flight and the machine phase.
#[derive(Debug, Clone)]
pub struct TextHandler {
    /// Clipboard content saved before the run began, for restore on
    /// failure and for rollback after a failed streaming injection.
    pub backup: Option<String>,
    /// Which capture the current run performs.
    pub mode: CaptureMode,
    /// Where the machine stands.
    pub phase: CapturePhase,
}

/// Retry counters stay in range and a restore phase always has a backup to
/// write.
pub open spec fn handler_wf(h: TextHandler) -> bool {
    match h.phase {
        CapturePhase::BackupRead { attempt } => attempt < CLIPBOARD_MAX_RETRIES,
        CapturePhase::BackupRetrySleep { attempt } => attempt < CLIPBOARD_MAX_RETRIES - 1,
        CapturePhase::SentinelWrite { attempt } => attempt < CLIPBOARD_MAX_RETRIES,
        CapturePhase::SentinelRetrySleep { attempt } => attempt < CLIPBOARD_MAX_RETRIES - 1,
        CapturePhase::WaitSleep { round } => round <= 2,
        CapturePhase::WaitRead { round, attempt } => round <= 2 && attempt
            < CLIPBOARD_MAX_RETRIES,
        CapturePhase::WaitRetrySleep { round, attempt } => round <= 2 && attempt
            < CLIPBOARD_MAX_RETRIES - 1,
        CapturePhase::FinalRead { attempt } => attempt < CLIPBOARD_MAX_RETRIES,
        CapturePhase::FinalRetrySleep { attempt } => attempt < CLIPBOARD_MAX_RETRIES - 1,
        CapturePhase::RestoreWrite { attempt, .. } => attempt < CLIPBOARD_MAX_RETRIES
            && h.backup is Some,
        CapturePhase::RestoreRetrySleep { attempt, .. } => attempt < CLIPBOARD_MAX_RETRIES - 1
            && h.backup is Some,
        _ => true,
    }
}

/// The machine's move when the captured text is in hand: hand it out, or
/// start restoring the backup because it is empty or blank.
pub open spec fn spec_verify_text(h: TextHandler, t: String) -> (TextHandler, CaptureAction) {
    if t@.len() == 0 {
        let f = if h.mode is Selected {
            CaptureFailure::CopyNothing
        } else {
            CaptureFailure::FullNothing
        };
        spec_fail_with(h, f)
    } else if spec_is_blank(t@) {
        spec_fail_with(h, CaptureFailure::OnlyWhitespace)
    } else {
        (
            TextHandler { phase: CapturePhase::Finished, ..h },
            CaptureAction::Finish(Ok(t)),
        )
    }
}

/// The machine's move on a failure: restore the backup first when there is
/// one, else finish at once.  A finished failing run holds no backup.
pub open spec fn spec_fail_with(h: TextHandler, f: CaptureFailure) -> (
    TextHandler,
    CaptureAction,
) {
    match h.backup {
        Some(b) => (
            TextHandler { phase: CapturePhase::RestoreWrite { attempt: 0, fail: f }, ..h },
            CaptureAction::WriteBackup(b),
        ),
        None => (
            TextHandler { backup: None, phase: CapturePhase::Finished, ..h },
            CaptureAction::Finish(Err(f)),
        ),
    }
}

/// The next poll round, or the final read when the three rounds are spent.
pub open spec fn spec_next_round(h: TextHandler, round: u8) -> (TextHandler, CaptureAction) {
    if round < 2 {
        (
            TextHandler { phase: CapturePhase::WaitSleep { round: (round + 1) as u8 }, ..h },
            CaptureAction::SleepMs((100 + 50 * (round + 1)) as u64),
        )
    } else {
        (
            TextHandler { phase: CapturePhase::FinalRead { attempt: 0 }, ..h },
            CaptureAction::ReadOnce,
        )
    }
}

/// One step of the capture machine on a driver event.
pub open spec fn spec_capture_step(h: TextHandler, ev: CaptureEvent) -> (
    TextHandler,
    CaptureAction,
) {
    match h.phase {
        CapturePhase::BackupRead { attempt } => match ev {
            CaptureEvent::ReadResult(r) => match r {
                Ok(t) => (
                    TextHandler {
                        backup: Some(t),
                        phase: CapturePhase::SentinelWrite { attempt: 0 },
                        ..h
                    },
                    CaptureAction::WriteSentinel,
                ),
                Err(_) => if attempt < 2 {
                    (
                        TextHandler {
                            phase: CapturePhase::BackupRetrySleep { attempt },
                            ..h
                        },
                        CaptureAction::SleepMs(CLIPBOARD_RETRY_DELAY_MS),
                    )
                } else {
                    (
                        TextHandler {
                            backup: None,
                            phase: CapturePhase::SentinelWrite { attempt: 0 },
                            ..h
                        },
                        CaptureAction::WriteSentinel,
                    )
                },
            },
            _ => (h, CaptureAction::Continue),
        },
        CapturePhase::BackupRetrySleep { attempt } => match ev {
            CaptureEvent::Slept => (
                TextHandler {
                    phase: CapturePhase::BackupRead { attempt: (attempt + 1) as u8 },
                    ..h
                },
                CaptureAction::ReadOnce,
            ),
            _ => (h, CaptureAction::Continue),
        },
        CapturePhase::SentinelWrite { attempt } => match ev {
            CaptureEvent::WriteResult(r) => match r {
                Ok(_) => (
                    TextHandler { phase: CapturePhase::SentinelSettle, ..h },
                    CaptureAction::SleepMs(50),
                ),
                Err(_) => if attempt < 2 {
                    (
                        TextHandler {
                            phase: CapturePhase::SentinelRetrySleep { attempt },
                            ..h
                        },
                        CaptureAction::SleepMs(CLIPBOARD_RETRY_DELAY_MS),
                    )
                } else {
                    // Clearing to the sentinel is best effort; the run
                    // proceeds without it.
                    (
                        TextHandler { phase: CapturePhase::SentinelSettle, ..h },
                        CaptureAction::SleepMs(50),
                    )
                },
            },
            _ => (h, CaptureAction::Continue),
        },
        CapturePhase::SentinelRetrySleep { attempt } => match ev {
            CaptureEvent::Slept => (
                TextHandler {
                    phase: CapturePhase::SentinelWrite { attempt: (attempt + 1) as u8 },
                    ..h
                },
                CaptureAction::WriteSentinel,
            ),
            _ => (h, CaptureAction::Continue),
        },
        CapturePhase::SentinelSettle => match ev {
            CaptureEvent::Slept => if h.mode is Selected {
                (
                    TextHandler { phase: CapturePhase::CopySim, ..h },
                    CaptureAction::SimCopy,
                )
            } else {
                (
                    TextHandler { phase: CapturePhase::SelectAllSim, ..h },
                    CaptureAction::SimSelectAll,
                )
            },
            _ => (h, CaptureAction::Continue),
        },
        CapturePhase::SelectAllSim => match ev {
            CaptureEvent::SimResult(r) => match r {
                Ok(_) => (
                    TextHandler { phase: CapturePhase::SelectAllSettle, ..h },
                    CaptureAction::SleepMs(150),
                ),
                Err(f) => spec_fail_with(h, CaptureFailure::SimFailed(f)),
            },
            _ => (h, CaptureAction::Continue),
        },
        CapturePhase::SelectAllSettle => match ev {
            CaptureEvent::Slept => (
                TextHandler { phase: CapturePhase::CopySim, ..h },
                CaptureAction::SimCopy,
            ),
            _ => (h, CaptureAction::Continue),
        },
        CapturePhase::CopySim => match ev {
            CaptureEvent::SimResult(r) => match r {
                Ok(_) => (
                    TextHandler { phase: CapturePhase::WaitSleep { round: 0 }, ..h },
                    CaptureAction::SleepMs(100),
                ),
                Err(f) => spec_fail_with(h, CaptureFailure::SimFailed(f)),
            },
            _ => (h, CaptureAction::Continue),
        },
        CapturePhase::WaitSleep { round } => match ev {
            CaptureEvent::Slept => (
                TextHandler { phase: CapturePhase::WaitRead { round, attempt: 0 }, ..h },
                CaptureAction::ReadOnce,
            ),
            _ => (h, CaptureAction::Continue),
        },
        CapturePhase::WaitRead { round, attempt } => match ev {
            CaptureEvent::ReadResult(r) => match r {
                Ok(t) => if t@.len() != 0 {
                    spec_verify_text(h, t)
                } else {
                    spec_next_round(h, round)
                },
                Err(_) => if attempt < 2 {
                    (
                        TextHandler {
                            phase: CapturePhase::WaitRetrySleep { round, attempt },
                            ..h
                        },
                        CaptureAction::SleepMs(CLIPBOARD_RETRY_DELAY_MS),
                    )
                } else {
                    spec_next_round(h, round)
                },
            },
            _ => (h, CaptureAction::Continue),
        },
        CapturePhase::WaitRetrySleep { round, attempt } => match ev {
            CaptureEvent::Slept => (
                TextHandler {
                    phase: CapturePhase::WaitRead { round, attempt: (attempt + 1) as u8 },
                    ..h
                },
                CaptureAction::ReadOnce,
            ),
            _ => (h, CaptureAction::Continue),
        },
        CapturePhase::FinalRead { attempt } => match ev {
            CaptureEvent::ReadResult(r) => match r {
                Ok(t) => spec_verify_text(h, t),
                Err(e) => if attempt < 2 {
                    (
                        TextHandler {
                            phase: CapturePhase::FinalRetrySleep { attempt },
                            ..h
                        },
                        CaptureAction::SleepMs(CLIPBOARD_RETRY_DELAY_MS),
                    )
                } else {
                    spec_fail_with(h, CaptureFailure::ReadFailed(e))
                },
            },
            _ => (h, CaptureAction::Continue),
        },
        CapturePhase::FinalRetrySleep { attempt } => match ev {
            CaptureEvent::Slept => (
                TextHandler {
                    phase: CapturePhase::FinalRead { attempt: (attempt + 1) as u8 },
                    ..h
                },
                CaptureAction::ReadOnce,
            ),
            _ => (h, CaptureAction::Continue),
        },
        CapturePhase::RestoreWrite { attempt, fail } => match ev {
            CaptureEvent::WriteResult(r) => match r {
                Ok(_) => (
                    TextHandler { backup: None, phase: CapturePhase::Finished, ..h },
                    CaptureAction::Finish(Err(fail)),
                ),
                Err(_) => if attempt < 2 {
                    (
                        TextHandler {
                            phase: CapturePhase::RestoreRetrySleep { attempt, fail },
                            ..h
                        },
                        CaptureAction::SleepMs(CLIPBOARD_RETRY_DELAY_MS),
                    )
                } else {
                    // Restoring is best effort: give up and report the
                    // failure that started the restore.
                    (
                        TextHandler { backup: None, phase: CapturePhase::Finished, ..h },
                        CaptureAction::Finish(Err(fail)),
                    )
                },
            },
            _ => (h, CaptureAction::Continue),
        },
        CapturePhase::RestoreRetrySleep { attempt, fail } => match ev {
            CaptureEvent::Slept => match h.backup {
                Some(b) => (
                    TextHandler {
                        phase: CapturePhase::RestoreWrite {
                            attempt: (attempt + 1) as u8,
                            fail,
                        },
                        ..h
                    },
                    CaptureAction::WriteBackup(b),
                ),
                None => (
                    TextHandler { backup: None, phase: CapturePhase::Finished, ..h },
                    CaptureAction::Finish(Err(fail)),
                ),
            },
            _ => (h, CaptureAction::Continue),
        },
        _ => (h, CaptureAction::Continue),
    }
}

impl TextHandler {
    /// A fresh handler with no backup and no run in flight.  Construction
    /// always succeeds; callers treat it like the other fallible setup.
    pub fn new() -> (r: Result<TextHandler, AppError>)
        ensures
            r matches Ok(h) && h.backup is None && h.phase is Idle && handler_wf(h),
    {
        Ok(TextHandler { backup: None, mode: CaptureMode::Selected, phase: CapturePhase::Idle })
    }

    /// Begins capturing the current selection; the returned action starts
    /// the backup read.
    pub fn begin_selected(&mut self) -> (a: CaptureAction)
        ensures
            final(self).backup == old(self).backup,
            final(self).mode is Selected,
            final(self).phase == (CapturePhase::BackupRead { attempt: 0u8 }),
            a is ReadOnce,
            handler_wf(*final(self)),
    {
        self.mode = CaptureMode::Selected;
        self.phase = CapturePhase::BackupRead { attempt: 0 };
        CaptureAction::ReadOnce
    }

    /// Begins capturing the whole focused field; the returned action starts
    /// the backup read.
    pub fn begin_full(&mut self) -> (a: CaptureAction)
        ensures
            final(self).backup == old(self).backup,
            final(self).mode is Full,
            final(self).phase == (CapturePhase::BackupRead { attempt: 0u8 }),
            a is ReadOnce,
            handler_wf(*final(self)),
    {
        self.mode = CaptureMode::Full;
        self.phase = CapturePhase::BackupRead { attempt: 0 };
        CaptureAction::ReadOnce
    }

    /// Steps the machine on one driver event.
    pub fn on_event(&mut self, ev: CaptureEvent) -> (a: CaptureAction)
        requires
            handler_wf(*old(self)),
        ensures
            handler_wf(*final(self)),
            (*final(self), a) == spec_capture_step(*old(self), ev),
    {
        let mode = self.mode;
        match &self.phase {
            CapturePhase::BackupRead { attempt } => {
                let attempt = *attempt;
                match ev {
                    CaptureEvent::ReadResult(r) => match r {
                        Ok(t) => {
                            self.backup = Some(t);
                            self.phase = CapturePhase::SentinelWrite { attempt: 0 };
                            CaptureAction::WriteSentinel
                        },
                        Err(_) => {
                            if attempt < 2 {
                                self.phase = CapturePhase::BackupRetrySleep { attempt };
                                CaptureAction::SleepMs(CLIPBOARD_RETRY_DELAY_MS)
                            } else {
                                self.backup = None;
                                self.phase = CapturePhase::SentinelWrite { attempt: 0 };
                                CaptureAction::WriteSentinel
                            }
                        },
                    },
                    _ => CaptureAction::Continue,
                }
            },
            CapturePhase::BackupRetrySleep { attempt } => {
                let attempt = *attempt;
                match ev {
                    CaptureEvent::Slept => {
                        self.phase = CapturePhase::BackupRead { attempt: attempt + 1 };
                        CaptureAction::ReadOnce
                    },
                    _ => CaptureAction::Continue,
                }
            },
            CapturePhase::SentinelWrite { attempt } => {
                let attempt = *attempt;
                match ev {
                    CaptureEvent::WriteResult(r) => match r {
                        Ok(_) => {
                            self.phase = CapturePhase::SentinelSettle;
                            CaptureAction::SleepMs(50)
                        },
                        Err(_) => {
                            if attempt < 2 {
                                self.phase = CapturePhase::SentinelRetrySleep { attempt };
                                CaptureAction::SleepMs(CLIPBOARD_RETRY_DELAY_MS)
                            } else {
                                self.phase = CapturePhase::SentinelSettle;
                                CaptureAction::SleepMs(50)
                            }
                        },
                    },
                    _ => CaptureAction::Continue,
                }
            },
            CapturePhase::SentinelRetrySleep { attempt } => {
                let attempt = *attempt;
                match ev {
                    CaptureEvent::Slept => {
                        self.phase = CapturePhase::SentinelWrite { attempt: attempt + 1 };
                        CaptureAction::WriteSentinel
                    },
                    _ => CaptureAction::Continue,
                }
            },
            CapturePhase::SentinelSettle => match ev {
                CaptureEvent::Slept => {
                    if let CaptureMode::Selected = mode {
                        self.phase = CapturePhase::CopySim;
                        CaptureAction::SimCopy
                    } else {
                        self.phase = CapturePhase::SelectAllSim;
                        CaptureAction::SimSelectAll
                    }
                },
                _ => CaptureAction::Continue,
            },
            CapturePhase::SelectAllSim => match ev {
                CaptureEvent::SimResult(r) => match r {
                    Ok(_) => {
                        self.phase = CapturePhase::SelectAllSettle;
                        CaptureAction::SleepMs(150)
                    },
                    Err(f) => self.fail_with(CaptureFailure::SimFailed(f)),
                },
                _ => CaptureAction::Continue,
            },
            CapturePhase::SelectAllSettle => match ev {
                CaptureEvent::Slept => {
                    self.phase = CapturePhase::CopySim;
                    CaptureAction::SimCopy
                },
                _ => CaptureAction::Continue,
            },
            CapturePhase::CopySim => match ev {
                CaptureEvent::SimResult(r) => match r {
                    Ok(_) => {
                        self.phase = CapturePhase::WaitSleep { round: 0 };
                        CaptureAction::SleepMs(100)
                    },
                    Err(f) => self.fail_with(CaptureFailure::SimFailed(f)),
                },
                _ => CaptureAction::Continue,
            },
            CapturePhase::WaitSleep { round } => {
                let round = *round;
                match ev {
                    CaptureEvent::Slept => {
                        self.phase = CapturePhase::WaitRead { round, attempt: 0 };
                        CaptureAction::ReadOnce
                    },
                    _ => CaptureAction::Continue,
                }
            },
            CapturePhase::WaitRead { round, attempt } => {
                let round = *round;
                let attempt = *attempt;
                match ev {
                    CaptureEvent::ReadResult(r) => match r {
                        Ok(t) => {
                            if !t.as_str().is_empty() {
                                self.verify_text(t)
                            } else {
                                self.next_round(round)
                            }
                        },
                        Err(_) => {
                            if attempt < 2 {
                                self.phase = CapturePhase::WaitRetrySleep { round, attempt };
                                CaptureAction::SleepMs(CLIPBOARD_RETRY_DELAY_MS)
                            } else {
                                self.next_round(round)
                            }
                        },
                    },
                    _ => CaptureAction::Continue,
                }
            },
            CapturePhase::WaitRetrySleep { round, attempt } => {
                let round = *round;
                let attempt = *attempt;
                match ev {
                    CaptureEvent::Slept => {
                        self.phase = CapturePhase::WaitRead { round, attempt: attempt + 1 };
                        CaptureAction::ReadOnce
                    },
                    _ => CaptureAction::Continue,
                }
            },
            CapturePhase::FinalRead { attempt } => {
                let attempt = *attempt;
                match ev {
                    CaptureEvent::ReadResult(r) => match r {
                        Ok(t) => self.verify_text(t),
                        Err(e) => {
                            if attempt < 2 {
                                self.phase = CapturePhase::FinalRetrySleep { attempt };
                                CaptureAction::SleepMs(CLIPBOARD_RETRY_DELAY_MS)
                            } else {
                                self.fail_with(CaptureFailure::ReadFailed(e))
                            }
                        },
                    },
                    _ => CaptureAction::Continue,
                }
            },
            CapturePhase::FinalRetrySleep { attempt } => {
                let attempt = *attempt;
                match ev {
                    CaptureEvent::Slept => {
                        self.phase = CapturePhase::FinalRead { attempt: attempt + 1 };
                        CaptureAction::ReadOnce
                    },
                    _ => CaptureAction::Continue,
                }
            },
            CapturePhase::RestoreWrite { attempt, fail } => {
                let attempt = *attempt;
                let fail = fail.clone();
                match ev {
                    CaptureEvent::WriteResult(r) => match r {
                        Ok(_) => {
                            self.backup = None;
                            self.phase = CapturePhase::Finished;
                            CaptureAction::Finish(Err(fail))
                        },
                        Err(_) => {
                            if attempt < 2 {
                                self.phase = CapturePhase::RestoreRetrySleep { attempt, fail };
                                CaptureAction::SleepMs(CLIPBOARD_RETRY_DELAY_MS)
                            } else {
                                self.backup = None;
                                self.phase = CapturePhase::Finished;
                                CaptureAction::Finish(Err(fail))
                            }
                        },
                    },
                    _ => CaptureAction::Continue,
                }
            },
            CapturePhase::RestoreRetrySleep { attempt, fail } => {
                let attempt = *attempt;
                let fail = fail.clone();
                match ev {
                    CaptureEvent::Slept => match &self.backup {
                        Some(b) => {
                            let b = b.clone();
                            self.phase = CapturePhase::RestoreWrite { attempt: attempt + 1, fail };
                            CaptureAction::WriteBackup(b)
                        },
                        None => {
                            self.backup = None;
                            self.phase = CapturePhase::Finished;
                            CaptureAction::Finish(Err(fail))
                        },
                    },
                    _ => CaptureAction::Continue,
                }
            },
            _ => CaptureAction::Continue,
        }
    }

    /// Hands the captured text out, or begins the restore because it is
    /// empty or blank.
    fn verify_text(&mut self, t: String) -> (a: CaptureAction)
        ensures
            (*final(self), a) == spec_verify_text(*old(self), t),
            old(self).backup is Some ==> final(self).backup == old(self).backup,
    {
        if t.as_str().is_empty() {
            let f = if let CaptureMode::Selected = self.mode {
                CaptureFailure::CopyNothing
            } else {
                CaptureFailure::FullNothing
            };
            self.fail_with(f)
        } else if is_blank_str(t.as_str()) {
            self.fail_with(CaptureFailure::OnlyWhitespace)
        } else {
            self.phase = CapturePhase::Finished;
            CaptureAction::Finish(Ok(t))
        }
    }

    /// Begins the restore of the backup before reporting `f`, or reports it
    /// at once when there is no backup.
    fn fail_with(&mut self, f: CaptureFailure) -> (a: CaptureAction)
        ensures
            (*final(self), a) == spec_fail_with(*old(self), f),
    {
        match &self.backup {
            Some(b) => {
                let b = b.clone();
                self.phase = CapturePhase::RestoreWrite { attempt: 0, fail: f };
                CaptureAction::WriteBackup(b)
            },
            None => {
                self.backup = None;
                self.phase = CapturePhase::Finished;
                CaptureAction::Finish(Err(f))
            },
        }
    }

    /// The next poll round, or the final read when the rounds are spent.
    fn next_round(&mut self, round: u8) -> (a: CaptureAction)
        requires
            round <= 2,
        ensures
            (*final(self), a) == spec_next_round(*old(self), round),
    {
        if round < 2 {
            self.phase = CapturePhase::WaitSleep { round: round + 1 };
            CaptureAction::SleepMs(100 + 50 * ((round + 1) as u64))
        } else {
            self.phase = CapturePhase::FinalRead { attempt: 0 };
            CaptureAction::ReadOnce
        }
    }

    /// The clipboard backup of the run in flight, if any.
    pub fn get_backup(&self) -> (r: Option<String>)
        ensures
            r == self.backup,
    {
        match &self.backup {
            Some(b) => Some(b.clone()),
            None => None,
        }
    }

    /// Drops the saved backup: the run that owned it is over.
    pub fn clear_backup(&mut self)
        ensures
            final(self).backup is None,
            final(self).mode == old(self).mode,
            final(self).phase == old(self).phase,
    {
        self.backup = None;
    }
}

/// A deterministic model of the world a capture run touches: the system
/// clipboard, the current selection, and the text of the focused field.
/// `sentinel` is the empty string the run clears the clipboard to.
pub ghost struct ClipWorld {
    /// What the clipboard holds.
    pub clipboard: String,
    /// What a simulated copy would place on the clipboard; `None` when
    /// nothing is selected, in which case a copy changes nothing.
    pub selection: Option<String>,
    /// What select-all would select.
    pub field_text: String,
    /// The empty string; the model needs a value for sentinel writes.
    pub sentinel: String,
    /// Whether the OS denies input simulation: every simulated key
    /// sequence is then refused and changes nothing.
    pub sim_denied: bool,
}

/// The model world is well formed when its sentinel really is empty.
pub open spec fn world_wf(w: ClipWorld) -> bool {
    w.sentinel@ == Seq::<char>::empty()
}

/// How the model world answers an action: reads and writes succeed, a copy
/// places the selection on the clipboard if there is one, select-all makes
/// the field text the selection.
pub open spec fn world_answer(w: ClipWorld, a: CaptureAction) -> (ClipWorld, CaptureEvent) {
    match a {
        CaptureAction::ReadOnce => (w, CaptureEvent::ReadResult(Ok(w.clipboard))),
        CaptureAction::WriteSentinel => (
            ClipWorld { clipboard: w.sentinel, ..w },
            CaptureEvent::WriteResult(Ok(())),
        ),
        CaptureAction::WriteBackup(b) => (
            ClipWorld { clipboard: b, ..w },
            CaptureEvent::WriteResult(Ok(())),
        ),
        CaptureAction::SimSelectAll => if w.sim_denied {
            (w, CaptureEvent::SimResult(Err(SimFailure::Denied)))
        } else {
            (
                ClipWorld { selection: Some(w.field_text), ..w },
                CaptureEvent::SimResult(Ok(())),
            )
        },
        CaptureAction::SimCopy => if w.sim_denied {
            (w, CaptureEvent::SimResult(Err(SimFailure::Denied)))
        } else {
            (
                match w.selection {
                    Some(s) => ClipWorld { clipboard: s, ..w },
                    None => w,
                },
                CaptureEvent::SimResult(Ok(())),
            )
        },
        CaptureAction::SleepMs(_) => (w, CaptureEvent::Slept),
        _ => (w, CaptureEvent::Slept),
    }
}

/// Runs the capture machine against the model world until it finishes or
/// the fuel runs out: the outcome, the final world, and the final machine.
pub open spec fn run_capture(
    h: TextHandler,
    w: ClipWorld,
    a: CaptureAction,
    fuel: nat,
) -> (Option<Result<String, CaptureFailure>>, ClipWorld, TextHandler)
    decreases fuel,
{
    match a {
        CaptureAction::Finish(res) => (Some(res), w, h),
        _ => if fuel == 0 {
            (None, w, h)
        } else {
            let (w1, ev) = world_answer(w, a);
            let (h1, a1) = spec_capture_step(h, ev);
            run_capture(h1, w1, a1, (fuel - 1) as nat)
        },
    }
}

/// The machine `begin_selected` or `begin_full` leaves behind.
pub open spec fn capture_start(h: TextHandler, mode: CaptureMode) -> TextHandler {
    TextHandler { mode, phase: CapturePhase::BackupRead { attempt: 0u8 }, ..h }
}

/// A selected-mode capture in the deterministic world returns exactly the
/// nonempty, nonblank selection, leaves it on the clipboard, keeps the
/// pre-run clipboard as the backup, and does not disturb the selection.
pub proof fn lemma_capture_selected_returns_selection(
    h: TextHandler,
    w: ClipWorld,
    fuel: nat,
)
    requires
        world_wf(w),
        !w.sim_denied,
        w.selection matches Some(s) && s@.len() > 0 && !spec_is_blank(s@),
        fuel >= 20,
    ensures
        ({
            let (res, w2, h2) = run_capture(
                capture_start(h, CaptureMode::Selected),
                w,
                CaptureAction::ReadOnce,
                fuel,
            );
            &&& res == Some(Result::<String, CaptureFailure>::Ok(w.selection->0))
            &&& w2.clipboard == w.selection->0
            &&& w2.selection == w.selection
            &&& w2.field_text == w.field_text
            &&& w2.sentinel == w.sentinel
            &&& w2.sim_denied == w.sim_denied
            &&& h2.backup == Some(w.clipboard)
            &&& h2.phase is Finished
        }),
{
    reveal_with_fuel(run_capture, 10);
}

/// Idempotence of selected capture: two runs in a row with no intervening
/// selection change yield the same text.
pub proof fn lemma_capture_selected_idempotent(
    h1: TextHandler,
    h2: TextHandler,
    w: ClipWorld,
    fuel: nat,
)
    requires
        world_wf(w),
        !w.sim_denied,
        w.selection matches Some(s) && s@.len() > 0 && !spec_is_blank(s@),
        fuel >= 20,
    ensures
        ({
            let (res1, w1, _) = run_capture(
                capture_start(h1, CaptureMode::Selected),
                w,
                CaptureAction::ReadOnce,
                fuel,
            );
            let (res2, _, _) = run_capture(
                capture_start(h2, CaptureMode::Selected),
                w1,
                CaptureAction::ReadOnce,
                fuel,
            );
            &&& res1 == Some(Result::<String, CaptureFailure>::Ok(w.selection->0))
            &&& res2 == res1
        }),
{
    lemma_capture_selected_returns_selection(h1, w, fuel);
    let (res1, w1, _) = run_capture(
        capture_start(h1, CaptureMode::Selected),
        w,
        CaptureAction::ReadOnce,
        fuel,
    );
    lemma_capture_selected_returns_selection(h2, w1, fuel);
}

/// With nothing selected, a selected-mode capture fails with the
/// copy-brought-nothing error and the clipboard is restored to what it held
/// before the run.
pub proof fn lemma_capture_selected_nothing_restores(
    h: TextHandler,
    w: ClipWorld,
    fuel: nat,
)
    requires
        world_wf(w),
        !w.sim_denied,
        w.selection is None,
        fuel >= 20,
    ensures
        ({
            let (res, w2, h2) = run_capture(
                capture_start(h, CaptureMode::Selected),
                w,
                CaptureAction::ReadOnce,
                fuel,
            );
            &&& res == Some(Result::<String, CaptureFailure>::Err(
                CaptureFailure::CopyNothing,
            ))
            &&& w2.clipboard == w.clipboard
            &&& h2.backup is None
            &&& h2.phase is Finished
        }),
{
    reveal_with_fuel(run_capture, 18);
}

/// A selected-mode capture of an empty or blank selection fails and
/// restores the clipboard.
proof fn lemma_selected_degenerate_restores(h: TextHandler, w: ClipWorld, fuel: nat)
    requires
        world_wf(w),
        !w.sim_denied,
        w.selection matches Some(s) && (s@.len() == 0 || spec_is_blank(s@)),
        fuel >= 20,
    ensures
        ({
            let (res, w2, h2) = run_capture(
                capture_start(h, CaptureMode::Selected),
                w,
                CaptureAction::ReadOnce,
                fuel,
            );
            &&& res matches Some(r) && r is Err
            &&& w2.clipboard == w.clipboard
        }),
{
    reveal_with_fuel(run_capture, 18);
}

/// A full-mode capture in the deterministic world: an empty or blank field
/// fails and restores the clipboard, anything else is returned as captured.
proof fn lemma_full_outcome(h: TextHandler, w: ClipWorld, fuel: nat)
    requires
        world_wf(w),
        !w.sim_denied,
        fuel >= 20,
    ensures
        ({
            let (res, w2, h2) = run_capture(
                capture_start(h, CaptureMode::Full),
                w,
                CaptureAction::ReadOnce,
                fuel,
            );
            &&& (w.field_text@.len() == 0 || spec_is_blank(w.field_text@)) ==> (
                res matches Some(r) && r is Err) && w2.clipboard == w.clipboard
            &&& !(w.field_text@.len() == 0 || spec_is_blank(w.field_text@)) ==> res
                == Some(Result::<String, CaptureFailure>::Ok(w.field_text))
        }),
{
    reveal_with_fuel(run_capture, 18);
}

/// When the OS denies input simulation, the run fails with the denied
/// simulation and the clipboard is restored.
proof fn lemma_sim_denied_restores(h: TextHandler, w: ClipWorld, mode: CaptureMode, fuel: nat)
    requires
        world_wf(w),
        w.sim_denied,
        fuel >= 20,
    ensures
        ({
            let (res, w2, h2) = run_capture(
                capture_start(h, mode),
                w,
                CaptureAction::ReadOnce,
                fuel,
            );
            &&& res == Some(Result::<String, CaptureFailure>::Err(
                CaptureFailure::SimFailed(SimFailure::Denied),
            ))
            &&& w2.clipboard == w.clipboard
        }),
{
    reveal_with_fuel(run_capture, 12);
}

/// Backup-restore law: in the deterministic world, every capture run that
/// fails leaves the clipboard exactly as it was before the run, in either
/// mode, whatever is selected, and whether or not the OS permits input
/// simulation.
pub proof fn lemma_failed_capture_restores_clipboard(
    h: TextHandler,
    w: ClipWorld,
    mode: CaptureMode,
    fuel: nat,
)
    requires
        world_wf(w),
        fuel >= 20,
    ensures
        ({
            let (res, w2, h2) = run_capture(
                capture_start(h, mode),
                w,
                CaptureAction::ReadOnce,
                fuel,
            );
            res matches Some(r) && r is Err ==> w2.clipboard@ == w.clipboard@
        }),
{
    if w.sim_denied {
        lemma_sim_denied_restores(h, w, mode, fuel);
    } else {
        match mode {
            CaptureMode::Selected => {
                match w.selection {
                    None => {
                        lemma_capture_selected_nothing_restores(h, w, fuel);
                    },
                    Some(s) => {
                        if s@.len() == 0 || spec_is_blank(s@) {
                            lemma_selected_degenerate_restores(h, w, fuel);
                        } else {
                            lemma_capture_selected_returns_selection(h, w, fuel);
                        }
                    },
                }
            },
            CaptureMode::Full => {
                lemma_full_outcome(h, w, fuel);
            },
        }
    }
}

} // verus!
