use vstd::prelude::*;

use crate::error::Error;
use crate::text::str_eq;

verus! {

/// What the tool is asked to do with the target.
#[derive(Clone, Copy, Debug, PartialEq, Eq, Structural)]
pub enum Command {
    Mount,
    Unmount,
}

impl Command {
    /// The command-line word of each command.
    pub open spec fn word(self) -> Seq<char> {
        match self {
            Command::Mount => "mount"@,
            Command::Unmount => "unmount"@,
        }
    }

    /// The command-line word of this command.
    pub fn as_ref(&self) -> (r: &'static str)
        ensures
            r@ == self.word(),
    {
        match self {
            Command::Mount => "mount",
            Command::Unmount => "unmount",
        }
    }

    /// Reads a command word; anything but `mount` or `unmount` is refused.
    pub fn from_str(s: &str) -> (r: Result<Command, Error>)
        ensures
            s@ == "mount"@ ==> r == Ok::<Command, Error>(Command::Mount),
            s@ == "unmount"@ ==> r == Ok::<Command, Error>(Command::Unmount),
            s@ != "mount"@ && s@ != "unmount"@ ==> match r {
                Err(Error::InvalidCommand(w)) => w@ == s@,
                _ => false,
            },
    {
        proof {
            reveal_strlit("mount");
            reveal_strlit("unmount");
            assert("mount"@.len() != "unmount"@.len());
        }
        if str_eq(s, "mount") {
            Ok(Command::Mount)
        } else if str_eq(s, "unmount") {
            Ok(Command::Unmount)
        } else {
            Err(Error::InvalidCommand(s.to_string()))
        }
    }
}

} // verus!
