//! The mount / unmount flow as a state machine. The machine never acts: each
//! step names one operation, the caller performs it and answers with an event.
use vstd::prelude::*;

use crate::args::Arguments;
use crate::command::Command;
use crate::entry::{entry_empty, is_entry_empty, EntryProbe, EntryType};
use crate::error::{Error, IoError, IoErrorKind, OsError};
use crate::mount_table::{is_path_mounted, mounted_in};
use crate::paths::{bind_mountpoint, bind_of, parent, parent_of, root_mountpoint, root_of};

verus! {

/// Where the flow stands: the phases name the answer that is awaited.
#[derive(Clone, Copy, Debug, PartialEq, Eq, Structural)]
pub enum Phase {
    Start,
    ReadingTable,
    CheckingRoot,
    InspectingRoot,
    Warning,
    CheckingBind,
    ClassifyingRoot,
    CreatingDir,
    CreatingParent,
    CreatingFile,
    Syncing,
    Mounting,
    Unmounting,
    Finished,
}

/// How a successful run ended.
#[derive(Clone, Copy, Debug, PartialEq, Eq, Structural)]
pub enum Outcome {
    AlreadyMounted,
    AlreadyUnmounted,
    Mounted,
    Unmounted,
}

/// What the caller is asked to do next.
#[derive(Debug)]
pub enum Op {
    /// Read the whole mount table; answer `MountTable`.
    ReadMountTable,
    /// Tell whether the path exists; answer `Exists`.
    CheckExists(String),
    /// Probe the entry at the path without following symlinks; answer `Entry`.
    Inspect(String),
    /// Warn that mounting over the path hides its content; answer `Ack`.
    WarnNotEmpty(String),
    /// Warn that the emptiness check failed; answer `Ack`.
    WarnInspectFailed(Error),
    /// Tell the type of the entry at the path, without following symlinks; answer `Kind`.
    Classify(String),
    /// Create the directory and all its parents; answer `Created`.
    CreateDirAll(String),
    /// Create an empty file at the path; answer `Created`.
    CreateFile(String),
    /// The path was created: flush all file systems; answer `Ack`.
    Sync(String),
    /// Bind mount `source` on `target`; answer `Syscall`.
    BindMount { source: String, target: String },
    /// Unmount the path; answer `Syscall`.
    Unmount(String),
    /// The run succeeded.
    Done(Outcome),
    /// The run failed.
    Fail(Error),
}

/// The caller's answer to the last operation.
#[derive(Debug)]
pub enum Event {
    Ack,
    MountTable(Result<String, Error>),
    Exists(bool),
    Entry(Result<EntryProbe, IoError>),
    Kind(Result<EntryType, IoError>),
    Created(Result<(), IoError>),
    Syscall(Result<(), OsError>),
}

/// Whether `e` answers what a machine in phase `p` waits for.
pub open spec fn answers(p: Phase, e: Event) -> bool {
    match p {
        Phase::Start | Phase::Warning | Phase::Syncing => e is Ack,
        Phase::ReadingTable => e is MountTable,
        Phase::CheckingRoot | Phase::CheckingBind => e is Exists,
        Phase::InspectingRoot => e is Entry,
        Phase::ClassifyingRoot => e is Kind,
        Phase::CreatingDir | Phase::CreatingParent | Phase::CreatingFile => e is Created,
        Phase::Mounting | Phase::Unmounting => e is Syscall,
        Phase::Finished => false,
    }
}

/// The text that says which step of the flow an I/O error came from.
pub open spec fn creation_context() -> Seq<char> {
    "Could not create bind mountpoint"@
}

/// `op` is the failure with an I/O error `x` raised while creating the mountpoint.
pub open spec fn fails_creating(op: Op, x: IoError) -> bool {
    match op {
        Op::Fail(Error::IO(Some(m), k)) => m@ == creation_context() && k == x,
        _ => false,
    }
}

/// `op` is the failure to create the mountpoint for `root`, an entry that is
/// neither a directory nor a regular file.
pub open spec fn fails_creating_unsupported(op: Op, root: Seq<char>) -> bool {
    match op {
        Op::Fail(Error::UnsupportedEntryType(Some(m), p)) => m@ == creation_context() && p@
            == root,
        _ => false,
    }
}

/// `op` asks for the bind mount of `bind` on `root`.
pub open spec fn mounts(op: Op, bind: Seq<char>, root: Seq<char>) -> bool {
    match op {
        Op::BindMount { source, target } => source@ == bind && target@ == root,
        _ => false,
    }
}

/// One step of the flow: in state `s` the event `e` leads to state `t` and
/// the operation `op`.
pub open spec fn transition(s: Orchestrator, e: Event, t: Orchestrator, op: Op) -> bool {
    let root = s.root@;
    let bind = s.bind@;
    &&& t.command == s.command
    &&& t.root@ == root
    &&& t.bind@ == bind
    &&& (t.mounted == s.mounted || s.phase == Phase::ReadingTable)
    &&& match (s.phase, e) {
        (Phase::Start, _) => t.phase == Phase::ReadingTable && op is ReadMountTable,
        (Phase::ReadingTable, Event::MountTable(Err(x))) => t.phase == Phase::Finished && op
            == Op::Fail(x),
        (Phase::ReadingTable, Event::MountTable(Ok(table))) => match mounted_in(table@, root) {
            Err(l) => t.phase == Phase::Finished && (op matches Op::Fail(Error::Format(m)) && m@
                == l),
            Ok(b) => t.mounted == b && match s.command {
                Command::Mount => t.phase == Phase::CheckingRoot && (op matches Op::CheckExists(
                    p,
                ) && p@ == root),
                Command::Unmount => if b {
                    t.phase == Phase::Unmounting && (op matches Op::Unmount(p) && p@ == root)
                } else {
                    t.phase == Phase::Finished && op == Op::Done(Outcome::AlreadyUnmounted)
                },
            },
        },
        (Phase::CheckingRoot, Event::Exists(x)) => if !x {
            t.phase == Phase::Finished && (op matches Op::Fail(Error::PreconditionFailed(p)) && p@
                == root)
        } else if s.mounted {
            t.phase == Phase::Finished && op == Op::Done(Outcome::AlreadyMounted)
        } else {
            t.phase == Phase::InspectingRoot && (op matches Op::Inspect(p) && p@ == root)
        },
        (Phase::InspectingRoot, Event::Entry(Err(x))) => t.phase == Phase::Warning && op
            == Op::WarnInspectFailed(Error::IO(None, x)),
        (Phase::InspectingRoot, Event::Entry(Ok(probe))) => match entry_empty(probe) {
            None => t.phase == Phase::Warning && (op matches Op::WarnInspectFailed(
                Error::UnsupportedEntryType(None, p),
            ) && p@ == root),
            Some(false) => t.phase == Phase::Warning && (op matches Op::WarnNotEmpty(p) && p@
                == root),
            Some(true) => t.phase == Phase::CheckingBind && (op matches Op::CheckExists(p) && p@
                == bind),
        },
        (Phase::Warning, _) => t.phase == Phase::CheckingBind && (op matches Op::CheckExists(p)
            && p@ == bind),
        (Phase::CheckingBind, Event::Exists(x)) => if x {
            t.phase == Phase::Mounting && mounts(op, bind, root)
        } else {
            t.phase == Phase::ClassifyingRoot && (op matches Op::Classify(p) && p@ == root)
        },
        (Phase::ClassifyingRoot, Event::Kind(Err(x))) => t.phase == Phase::Finished
            && fails_creating(op, x),
        (Phase::ClassifyingRoot, Event::Kind(Ok(k))) => match k {
            EntryType::Directory => t.phase == Phase::CreatingDir && (op matches Op::CreateDirAll(
                p,
            ) && p@ == bind),
            EntryType::File => t.phase == Phase::CreatingParent && (op matches Op::CreateDirAll(
                p,
            ) && p@ == parent_of(bind)),
            EntryType::Other => t.phase == Phase::Finished && fails_creating_unsupported(op, root),
        },
        (Phase::CreatingDir, Event::Created(r)) => match r {
            Ok(_) => t.phase == Phase::Syncing && (op matches Op::Sync(p) && p@ == bind),
            Err(x) => if x.kind == IoErrorKind::AlreadyExists {
                t.phase == Phase::CreatingDir && (op matches Op::CreateDirAll(p) && p@ == bind)
            } else {
                t.phase == Phase::Finished && fails_creating(op, x)
            },
        },
        (Phase::CreatingParent, Event::Created(r)) => match r {
            Ok(_) => t.phase == Phase::CreatingFile && (op matches Op::CreateFile(p) && p@ == bind),
            Err(x) => if x.kind == IoErrorKind::AlreadyExists {
                t.phase == Phase::CreatingParent && (op matches Op::CreateDirAll(p) && p@
                    == parent_of(bind))
            } else {
                t.phase == Phase::Finished && fails_creating(op, x)
            },
        },
        (Phase::CreatingFile, Event::Created(r)) => match r {
            Err(x) => if x.kind == IoErrorKind::AlreadyExists {
                t.phase == Phase::Syncing && (op matches Op::Sync(p) && p@ == bind)
            } else {
                t.phase == Phase::Finished && fails_creating(op, x)
            },
            Ok(_) => t.phase == Phase::Syncing && (op matches Op::Sync(p) && p@ == bind),
        },
        (Phase::Syncing, _) => t.phase == Phase::Mounting && mounts(op, bind, root),
        (Phase::Mounting, Event::Syscall(r)) => t.phase == Phase::Finished && match r {
            Ok(_) => op == Op::Done(Outcome::Mounted),
            Err(x) => op matches Op::Fail(Error::MountSyscallFailed(p, y)) && p@ == bind && y
                == x,
        },
        (Phase::Unmounting, Event::Syscall(r)) => t.phase == Phase::Finished && match r {
            Ok(_) => op == Op::Done(Outcome::Unmounted),
            Err(x) => op matches Op::Fail(Error::UnmountSyscallFailed(p, y)) && p@ == bind && y
                == x,
        },
        _ => false,
    }
}

/// Mount of a target that the mount table already lists, and that exists, is a
/// no-op: after the table and the existence check the run succeeds with
/// `AlreadyMounted`, and it never asks for a creation or a mount.
pub proof fn lemma_mount_when_mounted_is_noop(
    s0: Orchestrator,
    table: String,
    s1: Orchestrator,
    op1: Op,
    s2: Orchestrator,
    op2: Op,
)
    requires
        s0.phase == Phase::ReadingTable,
        s0.command == Command::Mount,
        mounted_in(table@, s0.root@) == Ok::<bool, Seq<char>>(true),
        transition(s0, Event::MountTable(Ok(table)), s1, op1),
        transition(s1, Event::Exists(true), s2, op2),
    ensures
        op1 matches Op::CheckExists(p) && p@ == s0.root@,
        op2 == Op::Done(Outcome::AlreadyMounted),
        s2.phase == Phase::Finished,
{
}

/// Unmount of a target that the mount table does not list is a no-op: the run
/// succeeds with `AlreadyUnmounted` right after the table is read.
pub proof fn lemma_unmount_when_unmounted_is_noop(
    s0: Orchestrator,
    table: String,
    s1: Orchestrator,
    op1: Op,
)
    requires
        s0.phase == Phase::ReadingTable,
        s0.command == Command::Unmount,
        mounted_in(table@, s0.root@) == Ok::<bool, Seq<char>>(false),
        transition(s0, Event::MountTable(Ok(table)), s1, op1),
    ensures
        op1 == Op::Done(Outcome::AlreadyUnmounted),
        s1.phase == Phase::Finished,
{
}

/// Mount of a target that does not exist fails with `PreconditionFailed`,
/// whatever the mount table says of it and whatever the bind root holds.
pub proof fn lemma_mount_of_missing_target_fails(
    s0: Orchestrator,
    table: String,
    s1: Orchestrator,
    op1: Op,
    s2: Orchestrator,
    op2: Op,
)
    requires
        s0.phase == Phase::ReadingTable,
        s0.command == Command::Mount,
        mounted_in(table@, s0.root@) is Ok,
        transition(s0, Event::MountTable(Ok(table)), s1, op1),
        transition(s1, Event::Exists(false), s2, op2),
    ensures
        op2 matches Op::Fail(Error::PreconditionFailed(p)) && p@ == s0.root@,
        s2.phase == Phase::Finished,
{
}

/// A mountpoint that already exists is kept as it is: nothing is created, the
/// run does not fail, and the bind mount comes next.
pub proof fn lemma_existing_mountpoint_is_kept(s: Orchestrator, t: Orchestrator, op: Op)
    requires
        s.phase == Phase::CheckingBind,
        transition(s, Event::Exists(true), t, op),
    ensures
        mounts(op, s.bind@, s.root@),
        t.phase == Phase::Mounting,
{
}

/// A directory chain that another process created first is no failure: the
/// creation is asked for again, on the same path.
pub proof fn lemma_creation_race_is_retried(s: Orchestrator, x: IoError, t: Orchestrator, op: Op)
    requires
        s.phase == Phase::CreatingDir || s.phase == Phase::CreatingParent,
        x.kind == IoErrorKind::AlreadyExists,
        transition(s, Event::Created(Err(x)), t, op),
    ensures
        t.phase == s.phase,
        op matches Op::CreateDirAll(p) && p@ == (if s.phase == Phase::CreatingDir {
            s.bind@
        } else {
            parent_of(s.bind@)
        }),
{
}

/// Every failure while the mountpoint is being created says so: its error
/// carries the text that names the creation.
pub proof fn lemma_creation_failures_carry_context(s: Orchestrator, e: Event, t: Orchestrator, op: Op)
    requires
        s.phase == Phase::ClassifyingRoot || s.phase == Phase::CreatingDir || s.phase
            == Phase::CreatingParent || s.phase == Phase::CreatingFile,
        answers(s.phase, e),
        transition(s, e, t, op),
        op is Fail,
    ensures
        match op {
            Op::Fail(Error::IO(Some(m), _)) => m@ == creation_context(),
            Op::Fail(Error::UnsupportedEntryType(Some(m), p)) => m@ == creation_context() && p@
                == s.root@,
            _ => false,
        },
{
}

/// The warning owed before mounting over `path`, given what probing it found:
/// one when the probe failed or the entry is not empty, none when it is empty.
pub open spec fn shadow_warning(path: Seq<char>, probe: Result<EntryProbe, IoError>, r: Option<
    Op,
>) -> bool {
    match probe {
        Err(x) => r == Some(Op::WarnInspectFailed(Error::IO(None, x))),
        Ok(p) => match entry_empty(p) {
            None => r matches Some(Op::WarnInspectFailed(Error::UnsupportedEntryType(None, q))) && q@
                == path,
            Some(false) => r matches Some(Op::WarnNotEmpty(q)) && q@ == path,
            Some(true) => r is None,
        },
    }
}

/// The warning to give before mounting over `path`: mounting hides what a
/// non-empty entry holds, and a failed probe is reported rather than fatal.
pub fn warn_if_mountpoint_not_empty(path: &String, probe: Result<EntryProbe, IoError>) -> (r:
    Option<Op>)
    ensures
        shadow_warning(path@, probe, r),
{
    match probe {
        Err(x) => Some(Op::WarnInspectFailed(Error::IO(None, x))),
        Ok(p) => match is_entry_empty(&p) {
            None => Some(Op::WarnInspectFailed(Error::UnsupportedEntryType(None, path.clone()))),
            Some(false) => Some(Op::WarnNotEmpty(path.clone())),
            Some(true) => None,
        },
    }
}

/// One run of the tool: the request, the mount state read from the table, and
/// the phase of the flow.
pub struct Orchestrator {
    pub command: Command,
    /// The target on the root filesystem: the destination of the bind mount.
    pub root: String,
    /// Its mirror under the bind root: the source of the bind mount.
    pub bind: String,
    /// Whether the mount table listed `root`.
    pub mounted: bool,
    pub phase: Phase,
}

impl Orchestrator {
    /// A run of the request, before anything was read.
    pub fn new(args: &Arguments) -> (r: Orchestrator)
        ensures
            r.command == args.command,
            r.root@ == root_of(args.target@),
            r.bind@ == bind_of(args.bind_root@, root_of(args.target@)),
            !r.mounted,
            r.phase == Phase::Start,
    {
        let root = root_mountpoint(&args.target);
        let bind = bind_mountpoint(&args.bind_root, &root);
        Orchestrator { command: args.command, root, bind, mounted: false, phase: Phase::Start }
    }

    /// Whether the event answers what the machine waits for.
    pub fn awaits(&self, e: &Event) -> (r: bool)
        ensures
            r == answers(self.phase, *e),
    {
        match self.phase {
            Phase::Start | Phase::Warning | Phase::Syncing => matches!(e, Event::Ack),
            Phase::ReadingTable => matches!(e, Event::MountTable(_)),
            Phase::CheckingRoot | Phase::CheckingBind => matches!(e, Event::Exists(_)),
            Phase::InspectingRoot => matches!(e, Event::Entry(_)),
            Phase::ClassifyingRoot => matches!(e, Event::Kind(_)),
            Phase::CreatingDir | Phase::CreatingParent | Phase::CreatingFile => matches!(e, Event::Created(_)),
            Phase::Mounting | Phase::Unmounting => matches!(e, Event::Syscall(_)),
            Phase::Finished => false,
        }
    }

    fn creation_failure(x: IoError) -> (op: Op)
        ensures
            fails_creating(op, x),
    {
        proof {
            reveal_strlit("Could not create bind mountpoint");
        }
        Op::Fail(Error::io("Could not create bind mountpoint", x))
    }

    fn unsupported_creation_failure(root: &String) -> (op: Op)
        ensures
            fails_creating_unsupported(op, root@),
    {
        proof {
            reveal_strlit("Could not create bind mountpoint");
        }
        let context = String::from_str("Could not create bind mountpoint");
        Op::Fail(Error::UnsupportedEntryType(Some(context), root.clone()))
    }

    /// Takes the answer to the last operation and names the next one.
    pub fn step(&mut self, e: Event) -> (op: Op)
        requires
            answers(old(self).phase, e),
        ensures
            transition(*old(self), e, *final(self), op),
    {
        match self.phase {
            Phase::Start => {
                self.phase = Phase::ReadingTable;
                Op::ReadMountTable
            },
            Phase::ReadingTable => {
                let text = match e {
                    Event::MountTable(r) => r,
                    _ => {
                        return Op::ReadMountTable;
                    },
                };
                let table = match text {
                    Ok(t) => t,
                    Err(x) => {
                        self.phase = Phase::Finished;
                        return Op::Fail(x);
                    },
                };
                match is_path_mounted(&table, &self.root) {
                    Err(x) => {
                        self.phase = Phase::Finished;
                        Op::Fail(x)
                    },
                    Ok(b) => {
                        self.mounted = b;
                        match self.command {
                            Command::Mount => {
                                self.phase = Phase::CheckingRoot;
                                Op::CheckExists(self.root.clone())
                            },
                            Command::Unmount => {
                                if b {
                                    self.phase = Phase::Unmounting;
                                    Op::Unmount(self.root.clone())
                                } else {
                                    self.phase = Phase::Finished;
                                    Op::Done(Outcome::AlreadyUnmounted)
                                }
                            },
                        }
                    },
                }
            },
            Phase::CheckingRoot => {
                let exists = match e {
                    Event::Exists(x) => x,
                    _ => {
                        return Op::ReadMountTable;
                    },
                };
                if !exists {
                    self.phase = Phase::Finished;
                    Op::Fail(Error::PreconditionFailed(self.root.clone()))
                } else if self.mounted {
                    self.phase = Phase::Finished;
                    Op::Done(Outcome::AlreadyMounted)
                } else {
                    self.phase = Phase::InspectingRoot;
                    Op::Inspect(self.root.clone())
                }
            },
            Phase::InspectingRoot => {
                let probe = match e {
                    Event::Entry(r) => r,
                    _ => {
                        return Op::ReadMountTable;
                    },
                };
                match warn_if_mountpoint_not_empty(&self.root, probe) {
                    Some(w) => {
                        self.phase = Phase::Warning;
                        w
                    },
                    None => {
                        self.phase = Phase::CheckingBind;
                        Op::CheckExists(self.bind.clone())
                    },
                }
            },
            Phase::Warning => {
                self.phase = Phase::CheckingBind;
                Op::CheckExists(self.bind.clone())
            },
            Phase::CheckingBind => {
                let exists = match e {
                    Event::Exists(x) => x,
                    _ => {
                        return Op::ReadMountTable;
                    },
                };
                if exists {
                    self.phase = Phase::Mounting;
                    Op::BindMount { source: self.bind.clone(), target: self.root.clone() }
                } else {
                    self.phase = Phase::ClassifyingRoot;
                    Op::Classify(self.root.clone())
                }
            },
            Phase::ClassifyingRoot => {
                let kind = match e {
                    Event::Kind(r) => r,
                    _ => {
                        return Op::ReadMountTable;
                    },
                };
                match kind {
                    Err(x) => {
                        self.phase = Phase::Finished;
                        Self::creation_failure(x)
                    },
                    Ok(EntryType::Directory) => {
                        self.phase = Phase::CreatingDir;
                        Op::CreateDirAll(self.bind.clone())
                    },
                    Ok(EntryType::File) => {
                        self.phase = Phase::CreatingParent;
                        Op::CreateDirAll(parent(&self.bind))
                    },
                    Ok(EntryType::Other) => {
                        self.phase = Phase::Finished;
                        Self::unsupported_creation_failure(&self.root)
                    },
                }
            },
            Phase::CreatingDir | Phase::CreatingParent | Phase::CreatingFile => {
                let created = match e {
                    Event::Created(r) => r,
                    _ => {
                        return Op::ReadMountTable;
                    },
                };
                match created {
                    Ok(_) => {
                        if self.phase == Phase::CreatingParent {
                            self.phase = Phase::CreatingFile;
                            Op::CreateFile(self.bind.clone())
                        } else {
                            self.phase = Phase::Syncing;
                            Op::Sync(self.bind.clone())
                        }
                    },
                    Err(x) => {
                        if x.kind != IoErrorKind::AlreadyExists {
                            self.phase = Phase::Finished;
                            Self::creation_failure(x)
                        } else if self.phase == Phase::CreatingDir {
                            Op::CreateDirAll(self.bind.clone())
                        } else if self.phase == Phase::CreatingParent {
                            Op::CreateDirAll(parent(&self.bind))
                        } else {
                            self.phase = Phase::Syncing;
                            Op::Sync(self.bind.clone())
                        }
                    },
                }
            },
            Phase::Syncing => {
                self.phase = Phase::Mounting;
                Op::BindMount { source: self.bind.clone(), target: self.root.clone() }
            },
            Phase::Mounting | Phase::Unmounting => {
                let result = match e {
                    Event::Syscall(r) => r,
                    _ => {
                        return Op::ReadMountTable;
                    },
                };
                let mounting = self.phase == Phase::Mounting;
                self.phase = Phase::Finished;
                match result {
                    Ok(_) => if mounting {
                        Op::Done(Outcome::Mounted)
                    } else {
                        Op::Done(Outcome::Unmounted)
                    },
                    Err(x) => if mounting {
                        Op::Fail(Error::MountSyscallFailed(self.bind.clone(), x))
                    } else {
                        Op::Fail(Error::UnmountSyscallFailed(self.bind.clone(), x))
                    },
                }
            },
            Phase::Finished => Op::ReadMountTable,
        }
    }
}

} // verus!
