use vstd::prelude::*;

use crate::command::Command;
use crate::error::Error;
use crate::paths::{trim_slashes, trim_trailing_slashes};

verus! {

/// A request as the command line gives it.
pub struct Arguments {
    pub command: Command,
    /// The path to mount over, without trailing slashes.
    pub target: String,
    /// The directory that holds the mirrored sources.
    pub bind_root: String,
}

impl Arguments {
    /// Builds a request from the three command-line values: the command word
    /// must be `mount` or `unmount`, and the target loses its trailing slashes.
    pub fn from_values(command: &str, target: &str, bind_root: &str) -> (r: Result<
        Arguments,
        Error,
    >)
        ensures
            command@ == "mount"@ || command@ == "unmount"@ <==> r is Ok,
            r matches Ok(a) ==> {
                &&& a.command.word() == command@
                &&& a.target@ == trim_slashes(target@)
                &&& a.bind_root@ == bind_root@
            },
            r matches Err(e) ==> (e matches Error::InvalidCommand(w) && w@ == command@),
    {
        proof {
            reveal_strlit("mount");
            reveal_strlit("unmount");
            assert("mount"@.len() != "unmount"@.len());
        }
        match Command::from_str(command) {
            Ok(c) => Ok(
                Arguments {
                    command: c,
                    target: trim_trailing_slashes(target),
                    bind_root: bind_root.to_string(),
                },
            ),
            Err(e) => Err(e),
        }
    }
}

} // verus!
