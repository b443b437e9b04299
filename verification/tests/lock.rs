use session_sync::error::CodexxError;
use session_sync::lock::{
    acquire_session_maintenance_lock, lock_action, LockAction, LockEvent, LockState,
};

const LEGACY: &str = "/codex/tmp/provider-sync.lock";
const LOCK: &str = "/codex/tmp/session-maintenance.lock";

struct Files {
    directory: Result<(), CodexxError>,
    legacy_present: bool,
    is_directory: bool,
    opened: Result<(), CodexxError>,
    free: bool,
    emptied: Result<(), CodexxError>,
    written: Result<(), CodexxError>,
    flushed: Result<(), CodexxError>,
    content: String,
    open: bool,
}

impl Files {
    fn new() -> Files {
        Files {
            directory: Ok(()),
            legacy_present: false,
            is_directory: false,
            opened: Ok(()),
            free: true,
            emptied: Ok(()),
            written: Ok(()),
            flushed: Ok(()),
            content: "pid=1\n".to_string(),
            open: false,
        }
    }

    fn answer(&mut self, action: LockAction<'_>) -> LockEvent {
        match action {
            LockAction::EnsureDirectory { codex_dir, directory } => {
                assert_eq!(codex_dir, "/codex");
                assert_eq!(directory, "tmp");
                LockEvent::Directory(take(&mut self.directory))
            }
            LockAction::ProbeLegacyLock { directory, file, .. } => {
                assert_eq!(format!("/codex/{}/{}", directory, file), LEGACY);
                LockEvent::LegacyLock { present: self.legacy_present, path: LEGACY.to_string() }
            }
            LockAction::ProbeLockFile { directory, file, .. } => {
                assert_eq!(format!("/codex/{}/{}", directory, file), LOCK);
                LockEvent::LockFile { is_directory: self.is_directory, path: LOCK.to_string() }
            }
            LockAction::Open { codex_dir, directory, file, read, write, create, truncate } => {
                assert_eq!(format!("{}/{}/{}", codex_dir, directory, file), LOCK);
                assert!(read && write && create && !truncate);
                let opened = take(&mut self.opened);
                self.open = opened.is_ok();
                LockEvent::Opened(opened)
            }
            LockAction::TryLock => LockEvent::Locked(self.free),
            LockAction::SetLength { length } => {
                assert_eq!(length, 0);
                self.content.clear();
                LockEvent::Emptied(take(&mut self.emptied))
            }
            LockAction::ReadProcessId => LockEvent::Process(4072),
            LockAction::Write { line } => {
                self.content.push_str(&line);
                LockEvent::Written(take(&mut self.written))
            }
            LockAction::Flush => LockEvent::Flushed(take(&mut self.flushed)),
            LockAction::Close => {
                assert!(self.open);
                self.open = false;
                LockEvent::Closed
            }
        }
    }
}

fn take(reply: &mut Result<(), CodexxError>) -> Result<(), CodexxError> {
    std::mem::replace(reply, Ok(()))
}

fn broken() -> Result<(), CodexxError> {
    Err(CodexxError::Storage("disk full".to_string()))
}

fn lock(files: &mut Files) -> (usize, Result<(), CodexxError>) {
    let codex_dir = "/codex".to_string();
    let mut state = LockState::Directory;
    let mut asked = 0;
    loop {
        let event = match lock_action(&codex_dir, &state) {
            Some(action) => files.answer(action),
            None => break,
        };
        asked += 1;
        state = acquire_session_maintenance_lock(state, event);
    }
    match state {
        LockState::Finished(outcome) => (asked, outcome),
        _ => unreachable!(),
    }
}

#[test]
fn free_lock_is_taken_and_names_the_process() {
    let mut files = Files::new();
    assert_eq!(lock(&mut files), (9, Ok(())));
    assert!(files.open);
    assert_eq!(files.content, "pid=4072\n");
}

#[test]
fn legacy_lock_refuses() {
    let mut files = Files { legacy_present: true, ..Files::new() };
    let message = format!("会话维护正在进行: {}", LEGACY);
    assert_eq!(lock(&mut files), (2, Err(CodexxError::Config(message))));
    assert_eq!(files.content, "pid=1\n");
}

#[test]
fn lock_directory_of_an_older_version_refuses() {
    let mut files = Files { is_directory: true, ..Files::new() };
    let message = format!(
        "检测到旧版会话维护锁，请确认没有其他 Codex-X 正在维护会话后删除: {}",
        LOCK
    );
    assert_eq!(lock(&mut files), (3, Err(CodexxError::Config(message))));
}

#[test]
fn held_lock_refuses_and_keeps_its_file() {
    let mut files = Files { free: false, ..Files::new() };
    let message = format!("会话维护正在进行: {}", LOCK);
    assert_eq!(lock(&mut files), (6, Err(CodexxError::Config(message))));
    assert_eq!(files.content, "pid=1\n");
    assert!(!files.open);
}

#[test]
fn file_errors_refuse_at_their_step() {
    let steps = [
        (1, Files { directory: broken(), ..Files::new() }),
        (4, Files { opened: broken(), ..Files::new() }),
        (7, Files { emptied: broken(), ..Files::new() }),
        (9, Files { written: broken(), ..Files::new() }),
        (10, Files { flushed: broken(), ..Files::new() }),
    ];
    for (step, mut files) in steps {
        assert_eq!(lock(&mut files), (step, broken()));
        assert!(!files.open);
    }
}

#[test]
fn unexpected_lock_event_changes_nothing() {
    assert_eq!(
        acquire_session_maintenance_lock(LockState::LegacyLock, LockEvent::Locked(true)),
        LockState::LegacyLock
    );
    assert_eq!(
        acquire_session_maintenance_lock(
            LockState::Finished(Ok(())),
            LockEvent::Directory(broken())
        ),
        LockState::Finished(Ok(()))
    );
}
