use vstd::prelude::*;

verus! {

/// The part of an operating-system I/O failure that the flow decides on.
#[derive(Clone, Copy, Debug, PartialEq, Eq, Structural)]
pub enum IoErrorKind {
    NotFound,
    AlreadyExists,
    PermissionDenied,
    Other,
}

/// A failed file-system operation, as plain values.
#[derive(Clone, Debug)]
pub struct IoError {
    pub kind: IoErrorKind,
    pub description: String,
}

/// A failed `mount` / `umount` call: the OS error number and its text.
#[derive(Clone, Debug)]
pub struct OsError {
    pub code: i32,
    pub description: String,
}

/// Everything that can make a run fail.
#[derive(Clone, Debug)]
pub enum Error {
    /// A file-system operation failed; the optional text says what was attempted.
    IO(Option<String>, IoError),
    /// A mount-table line with fewer than two fields (the line itself).
    Format(String),
    /// The entry at this path is neither a directory nor a regular file; the
    /// optional text says what was attempted.
    UnsupportedEntryType(Option<String>, String),
    /// Mount was asked for, but the target path does not exist.
    PreconditionFailed(String),
    /// The bind mount of this source path was refused by the OS.
    MountSyscallFailed(String, OsError),
    /// The unmount of this target path was refused by the OS.
    UnmountSyscallFailed(String, OsError),
    /// A command word that is neither `mount` nor `unmount`.
    InvalidCommand(String),
}

/// The text that describes an error to the user.
pub open spec fn message_of(e: Error) -> Seq<char> {
    match e {
        Error::IO(Some(m), x) => m@ + ": "@ + x.description@,
        Error::IO(None, x) => x.description@,
        Error::Format(l) => "Unsupported mount table entry: "@ + l@,
        Error::UnsupportedEntryType(Some(m), p) => m@ + ": "@ + "Unsupported file type: "@ + p@,
        Error::UnsupportedEntryType(None, p) => "Unsupported file type: "@ + p@,
        Error::PreconditionFailed(p) => "Root mount point doesn't exist: "@ + p@,
        Error::MountSyscallFailed(p, o) => "Failed to mount "@ + p@ + ": "@ + o.description@,
        Error::UnmountSyscallFailed(p, o) => "Failed to unmount "@ + p@ + ": "@ + o.description@,
        Error::InvalidCommand(w) => "Invalid command: "@ + w@,
    }
}

impl Error {
    /// The text that describes this error to the user.
    pub fn message(&self) -> (r: String)
        ensures
            r@ == message_of(*self),
    {
        match self {
            Error::IO(Some(m), x) => m.clone().concat(": ").concat(x.description.as_str()),
            Error::IO(None, x) => x.description.clone(),
            Error::Format(l) => String::from_str("Unsupported mount table entry: ").concat(
                l.as_str(),
            ),
            Error::UnsupportedEntryType(Some(m), p) => m.clone().concat(": ").concat(
                "Unsupported file type: ",
            ).concat(p.as_str()),
            Error::UnsupportedEntryType(None, p) => String::from_str("Unsupported file type: ").concat(
                p.as_str(),
            ),
            Error::PreconditionFailed(p) => String::from_str(
                "Root mount point doesn't exist: ",
            ).concat(p.as_str()),
            Error::MountSyscallFailed(p, o) => String::from_str("Failed to mount ").concat(
                p.as_str(),
            ).concat(": ").concat(o.description.as_str()),
            Error::UnmountSyscallFailed(p, o) => String::from_str("Failed to unmount ").concat(
                p.as_str(),
            ).concat(": ").concat(o.description.as_str()),
            Error::InvalidCommand(w) => String::from_str("Invalid command: ").concat(w.as_str()),
        }
    }

    /// An I/O error together with a description of the attempted operation.
    pub fn io(s: &str, e: IoError) -> (r: Error)
        ensures
            match r {
                Error::IO(Some(m), k) => m@ == s@ && k == e,
                _ => false,
            },
    {
        Error::IO(Some(s.to_string()), e)
    }
}

} // verus!
