//! Where the local control channel lives.
//!
//! A running overlay listens on a Unix-domain socket in the per-user runtime
//! directory. Without that directory there is nowhere known to be private, so
//! the socket is refused rather than put somewhere world-writable.
use vstd::prelude::*;
use crate::paths::{join, joined};
use crate::verbs::ControlCommand;

verus! {

/// The socket's file name inside the runtime directory.
pub open spec fn socket_name() -> Seq<char> {
    seq!['y', 'a', 'p', 'p', 'y', 'i', 'n', 'k', '.', 's', 'o', 'c', 'k']
}

/// The socket's path inside `runtime_dir`, the value of `XDG_RUNTIME_DIR`
/// if it is set. An empty or missing directory is refused.
pub fn socket_path_in(runtime_dir: Option<&str>) -> (path: Result<String, String>)
    ensures
        match runtime_dir {
            Some(dir) => if dir@.len() > 0 {
                path matches Ok(p) && p@ == joined(dir@, socket_name())
            } else {
                path matches Err(e) && e@ == "XDG_RUNTIME_DIR is empty"@
            },
            None => path matches Err(e)
                && e@ == "XDG_RUNTIME_DIR is not set, so there is no private directory for the control socket"@,
        },
{
    proof {
        reveal_strlit("yappyink.sock");
    }
    let name = "yappyink.sock";
    assert(name@ =~= socket_name());
    match runtime_dir {
        Some(dir) => {
            if dir.unicode_len() > 0 {
                Ok(join(dir, name))
            } else {
                Err(String::from_str("XDG_RUNTIME_DIR is empty"))
            }
        },
        None => Err(String::from_str("XDG_RUNTIME_DIR is not set, so there is no private directory for the control socket")),
    }
}

/// What the control server answers one line, and whether it keeps
/// listening, given the verb the line named (if any) and whether the overlay
/// took it. An unknown line is refused without echoing it, so the socket
/// cannot bounce arbitrary text back at a caller; a verb the overlay can no
/// longer take stops the listener.
pub fn reply_to(command: Option<ControlCommand>, delivered: bool) -> (answer: (&'static str, bool))
    ensures
        answer.0@ == match command {
            Some(_) => if delivered { "ok"@ } else { "error the overlay is no longer running"@ },
            None => "error unknown command"@,
        },
        answer.1 == (command is None || delivered),
{
    match command {
        Some(_) => {
            if delivered {
                ("ok", true)
            } else {
                ("error the overlay is no longer running", false)
            }
        },
        None => ("error unknown command", true),
    }
}

} // verus!
