use bind_mount::args::Arguments;
use bind_mount::entry::{EntryProbe, EntryType};
use bind_mount::error::{Error, IoError, IoErrorKind, OsError};
use bind_mount::orchestrator::{warn_if_mountpoint_not_empty, Event, Op, Orchestrator, Outcome, Phase};

const TABLE: &str = "proc /proc proc rw 0 0\n/dev/sda1 / ext4 rw 0 0\n";
const TABLE_WITH_DIR: &str = "proc /proc proc rw 0 0\n/dev/sda2 /etc/dir ext4 rw 0 0\n";

fn start(command: &str, target: &str, bind_root: &str) -> Orchestrator {
    let args = Arguments::from_values(command, target, bind_root).unwrap();
    let mut m = Orchestrator::new(&args);
    assert!(matches!(m.step(Event::Ack), Op::ReadMountTable));
    m
}

fn io_error(kind: IoErrorKind) -> IoError {
    IoError { kind, description: "File exists".to_string() }
}

fn is_path(op: &Op, expected: &str) -> bool {
    match op {
        Op::CheckExists(p) | Op::Inspect(p) | Op::WarnNotEmpty(p) | Op::Classify(p)
        | Op::CreateDirAll(p) | Op::CreateFile(p) | Op::Sync(p) | Op::Unmount(p) => p == expected,
        _ => false,
    }
}

fn is_mount(op: &Op, source: &str, target: &str) -> bool {
    matches!(op, Op::BindMount { source: s, target: t } if s == source && t == target)
}

#[test]
fn mount_non_empty_directory() {
    let mut m = start("mount", "/etc/dir", "/overlay");
    let op = m.step(Event::MountTable(Ok(TABLE.to_string())));
    assert!(is_path(&op, "/etc/dir") && matches!(op, Op::CheckExists(_)));
    let op = m.step(Event::Exists(true));
    assert!(matches!(op, Op::Inspect(_)) && is_path(&op, "/etc/dir"));
    let probe = EntryProbe { kind: EntryType::Directory, has_children: true, len: 4096 };
    let op = m.step(Event::Entry(Ok(probe)));
    assert!(matches!(op, Op::WarnNotEmpty(_)) && is_path(&op, "/etc/dir"));
    let op = m.step(Event::Ack);
    assert!(matches!(op, Op::CheckExists(_)) && is_path(&op, "/overlay/etc/dir"));
    let op = m.step(Event::Exists(false));
    assert!(matches!(op, Op::Classify(_)) && is_path(&op, "/etc/dir"));
    let op = m.step(Event::Kind(Ok(EntryType::Directory)));
    assert!(matches!(op, Op::CreateDirAll(_)) && is_path(&op, "/overlay/etc/dir"));
    let op = m.step(Event::Created(Ok(())));
    assert!(matches!(op, Op::Sync(_)) && is_path(&op, "/overlay/etc/dir"));
    let op = m.step(Event::Ack);
    assert!(is_mount(&op, "/overlay/etc/dir", "/etc/dir"));
    let op = m.step(Event::Syscall(Ok(())));
    assert!(matches!(op, Op::Done(Outcome::Mounted)));
    assert_eq!(m.phase, Phase::Finished);
}

#[test]
fn mount_regular_file() {
    let mut m = start("mount", "/etc/file", "/overlay");
    assert!(matches!(m.step(Event::MountTable(Ok(TABLE.to_string()))), Op::CheckExists(_)));
    assert!(matches!(m.step(Event::Exists(true)), Op::Inspect(_)));
    let probe = EntryProbe { kind: EntryType::File, has_children: false, len: 0 };
    let op = m.step(Event::Entry(Ok(probe)));
    assert!(matches!(op, Op::CheckExists(_)) && is_path(&op, "/overlay/etc/file"));
    assert!(matches!(m.step(Event::Exists(false)), Op::Classify(_)));
    let op = m.step(Event::Kind(Ok(EntryType::File)));
    assert!(matches!(op, Op::CreateDirAll(_)) && is_path(&op, "/overlay/etc"));
    let op = m.step(Event::Created(Ok(())));
    assert!(matches!(op, Op::CreateFile(_)) && is_path(&op, "/overlay/etc/file"));
    let op = m.step(Event::Created(Ok(())));
    assert!(matches!(op, Op::Sync(_)) && is_path(&op, "/overlay/etc/file"));
    let op = m.step(Event::Ack);
    assert!(is_mount(&op, "/overlay/etc/file", "/etc/file"));
    assert!(matches!(m.step(Event::Syscall(Ok(()))), Op::Done(Outcome::Mounted)));
}

#[test]
fn mount_of_mounted_target_is_noop() {
    let mut m = start("mount", "/etc/dir/", "/overlay");
    assert!(matches!(m.step(Event::MountTable(Ok(TABLE_WITH_DIR.to_string()))), Op::CheckExists(_)));
    assert!(m.mounted);
    assert!(matches!(m.step(Event::Exists(true)), Op::Done(Outcome::AlreadyMounted)));
    assert_eq!(m.phase, Phase::Finished);
}

#[test]
fn unmount_of_unmounted_target_is_noop() {
    let mut m = start("unmount", "/etc/dir", "/overlay");
    let op = m.step(Event::MountTable(Ok(TABLE.to_string())));
    assert!(matches!(op, Op::Done(Outcome::AlreadyUnmounted)));
    assert_eq!(m.phase, Phase::Finished);
}

#[test]
fn unmount_of_mounted_target() {
    let mut m = start("unmount", "etc/dir", "/overlay");
    let op = m.step(Event::MountTable(Ok(TABLE_WITH_DIR.to_string())));
    assert!(matches!(op, Op::Unmount(_)) && is_path(&op, "/etc/dir"));
    assert!(matches!(m.step(Event::Syscall(Ok(()))), Op::Done(Outcome::Unmounted)));
}

#[test]
fn unmount_refused_by_the_system() {
    let mut m = start("unmount", "/etc/dir", "/overlay");
    assert!(matches!(m.step(Event::MountTable(Ok(TABLE_WITH_DIR.to_string()))), Op::Unmount(_)));
    let os = OsError { code: 16, description: "Device or resource busy".to_string() };
    match m.step(Event::Syscall(Err(os))) {
        Op::Fail(Error::UnmountSyscallFailed(p, o)) => {
            assert_eq!(p, "/overlay/etc/dir");
            assert_eq!(o.code, 16);
        },
        _ => panic!("expected an unmount failure"),
    }
}

#[test]
fn mount_of_missing_target_fails() {
    let mut m = start("mount", "/etc/missing", "/overlay");
    assert!(matches!(m.step(Event::MountTable(Ok(TABLE.to_string()))), Op::CheckExists(_)));
    match m.step(Event::Exists(false)) {
        Op::Fail(Error::PreconditionFailed(p)) => assert_eq!(p, "/etc/missing"),
        _ => panic!("expected a precondition failure"),
    }
    assert_eq!(m.phase, Phase::Finished);
}

#[test]
fn mount_refused_by_the_system() {
    let mut m = start("mount", "/etc/dir", "/overlay");
    m.step(Event::MountTable(Ok(TABLE.to_string())));
    m.step(Event::Exists(true));
    let probe = EntryProbe { kind: EntryType::Directory, has_children: false, len: 0 };
    assert!(matches!(m.step(Event::Entry(Ok(probe))), Op::CheckExists(_)));
    assert!(matches!(m.step(Event::Exists(true)), Op::BindMount { .. }));
    let os = OsError { code: 1, description: "Operation not permitted".to_string() };
    match m.step(Event::Syscall(Err(os))) {
        Op::Fail(Error::MountSyscallFailed(p, o)) => {
            assert_eq!(p, "/overlay/etc/dir");
            assert_eq!(o.code, 1);
        },
        _ => panic!("expected a mount failure"),
    }
}

#[test]
fn existing_mountpoint_is_not_created_again() {
    let mut m = start("mount", "/etc/dir", "/overlay");
    m.step(Event::MountTable(Ok(TABLE.to_string())));
    m.step(Event::Exists(true));
    let probe = EntryProbe { kind: EntryType::Directory, has_children: false, len: 0 };
    m.step(Event::Entry(Ok(probe)));
    let op = m.step(Event::Exists(true));
    assert!(is_mount(&op, "/overlay/etc/dir", "/etc/dir"));
    assert_eq!(m.phase, Phase::Mounting);
}

#[test]
fn concurrent_directory_creation_is_retried() {
    let mut m = start("mount", "/etc/dir", "/overlay");
    m.step(Event::MountTable(Ok(TABLE.to_string())));
    m.step(Event::Exists(true));
    let probe = EntryProbe { kind: EntryType::Directory, has_children: false, len: 0 };
    m.step(Event::Entry(Ok(probe)));
    m.step(Event::Exists(false));
    assert!(matches!(m.step(Event::Kind(Ok(EntryType::Directory))), Op::CreateDirAll(_)));
    let op = m.step(Event::Created(Err(io_error(IoErrorKind::AlreadyExists))));
    assert!(matches!(op, Op::CreateDirAll(_)) && is_path(&op, "/overlay/etc/dir"));
    assert_eq!(m.phase, Phase::CreatingDir);
    let op = m.step(Event::Created(Ok(())));
    assert!(matches!(op, Op::Sync(_)));
}

#[test]
fn concurrent_parent_creation_and_existing_file() {
    let mut m = start("mount", "/etc/file", "/overlay");
    m.step(Event::MountTable(Ok(TABLE.to_string())));
    m.step(Event::Exists(true));
    let probe = EntryProbe { kind: EntryType::File, has_children: false, len: 10 };
    assert!(matches!(m.step(Event::Entry(Ok(probe))), Op::WarnNotEmpty(_)));
    m.step(Event::Ack);
    m.step(Event::Exists(false));
    m.step(Event::Kind(Ok(EntryType::File)));
    let op = m.step(Event::Created(Err(io_error(IoErrorKind::AlreadyExists))));
    assert!(matches!(op, Op::CreateDirAll(_)) && is_path(&op, "/overlay/etc"));
    assert!(matches!(m.step(Event::Created(Ok(()))), Op::CreateFile(_)));
    let op = m.step(Event::Created(Err(io_error(IoErrorKind::AlreadyExists))));
    assert!(matches!(op, Op::Sync(_)) && is_path(&op, "/overlay/etc/file"));
}

#[test]
fn other_creation_errors_fail() {
    let mut m = start("mount", "/etc/dir", "/overlay");
    m.step(Event::MountTable(Ok(TABLE.to_string())));
    m.step(Event::Exists(true));
    let probe = EntryProbe { kind: EntryType::Directory, has_children: false, len: 0 };
    m.step(Event::Entry(Ok(probe)));
    m.step(Event::Exists(false));
    m.step(Event::Kind(Ok(EntryType::Directory)));
    let e = IoError { kind: IoErrorKind::PermissionDenied, description: "Permission denied".to_string() };
    match m.step(Event::Created(Err(e))) {
        Op::Fail(err) => {
            assert!(matches!(err, Error::IO(Some(_), IoError { kind: IoErrorKind::PermissionDenied, .. })));
            assert_eq!(err.message(), "Could not create bind mountpoint: Permission denied");
        },
        _ => panic!("expected a creation failure"),
    }
}

#[test]
fn unsupported_target_type_fails() {
    let mut m = start("mount", "/etc/link", "/overlay");
    m.step(Event::MountTable(Ok(TABLE.to_string())));
    m.step(Event::Exists(true));
    let probe = EntryProbe { kind: EntryType::Other, has_children: false, len: 0 };
    assert!(matches!(m.step(Event::Entry(Ok(probe))), Op::WarnInspectFailed(Error::UnsupportedEntryType(None, _))));
    m.step(Event::Ack);
    m.step(Event::Exists(false));
    match m.step(Event::Kind(Ok(EntryType::Other))) {
        Op::Fail(err) => {
            assert!(matches!(&err, Error::UnsupportedEntryType(Some(_), p) if p == "/etc/link"));
            assert_eq!(
                err.message(),
                "Could not create bind mountpoint: Unsupported file type: /etc/link"
            );
        },
        _ => panic!("expected an unsupported type"),
    }
}

#[test]
fn table_errors_end_the_run() {
    let mut m = start("mount", "/etc/dir", "/overlay");
    let e = Error::io("Failed to open the mount table", io_error(IoErrorKind::NotFound));
    assert!(matches!(m.step(Event::MountTable(Err(e))), Op::Fail(Error::IO(Some(_), _))));
    let mut m = start("unmount", "/etc/dir", "/overlay");
    match m.step(Event::MountTable(Ok("proc /proc\nbroken\n".to_string()))) {
        Op::Fail(Error::Format(l)) => assert_eq!(l, "broken"),
        _ => panic!("expected a format error"),
    }
}

#[test]
fn failed_probe_only_warns() {
    let e = IoError { kind: IoErrorKind::PermissionDenied, description: "denied".to_string() };
    let w = warn_if_mountpoint_not_empty(&"/etc/dir".to_string(), Err(e));
    assert!(matches!(w, Some(Op::WarnInspectFailed(Error::IO(None, _)))));
    let empty = EntryProbe { kind: EntryType::Directory, has_children: false, len: 0 };
    assert!(warn_if_mountpoint_not_empty(&"/etc/dir".to_string(), Ok(empty)).is_none());
}

#[test]
fn machine_awaits_the_right_answer() {
    let mut m = start("mount", "/etc/dir", "/overlay");
    assert!(m.awaits(&Event::MountTable(Ok(String::new()))));
    assert!(!m.awaits(&Event::Ack));
    m.step(Event::MountTable(Ok(TABLE.to_string())));
    assert!(m.awaits(&Event::Exists(true)));
    m.step(Event::Exists(false));
    assert!(!m.awaits(&Event::Ack));
}
