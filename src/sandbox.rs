//! The parent-side handle of an anchor process and the pure parts of its
//! probe and command injection.
use crate::text::{decimal, decimal_string, decode_lossy, lossy_text, trim_text, trimmed};
use vstd::prelude::*;
use vstd::string::*;

verus! {

/// Handle on an anchor process: its process id and whether it was asked to
/// apply complete isolation when it was created.
pub struct Sandbox {
    pid: i32,
    complete_isolation: bool,
}

/// The process-table entry whose presence tells that the anchor is alive.
pub open spec fn status_path_of(pid: int) -> Seq<char> {
    "/proc/"@ + decimal(pid as nat) + "/status"@
}

/// The shell line that runs `cmd` through a shell inside the anchor's PID namespace.
pub open spec fn injection_line(pid: int, cmd: Seq<char>) -> Seq<char> {
    "nsenter --target "@ + decimal(pid as nat) + " --pid -- sh -c \""@ + cmd + "\""@
}

impl Sandbox {
    /// A handle holds the id of a real process.
    pub open spec fn wf(&self) -> bool {
        self.spec_pid() > 0
    }

    pub closed spec fn spec_pid(&self) -> int {
        self.pid as int
    }

    pub closed spec fn spec_complete_isolation(&self) -> bool {
        self.complete_isolation
    }

    /// Wraps the parent's side of a process duplication: `Some(child)` when
    /// it gave a child process id, `None` when duplication failed. No handle
    /// comes out of a failed duplication or of an id that names no process.
    pub fn new(child: Option<i32>, complete_isolation: bool) -> (r: Option<Sandbox>)
        ensures
            r.is_some() <==> (child.is_some() && child.unwrap() > 0),
            r.is_some() ==> r.unwrap().wf(),
            r.is_some() ==> r.unwrap().spec_pid() == child.unwrap() as int,
            r.is_some() ==> r.unwrap().spec_complete_isolation() == complete_isolation,
    {
        match child {
            Some(pid) if pid > 0 => Some(Sandbox { pid, complete_isolation }),
            _ => None,
        }
    }

    /// The anchor's process id.
    pub fn pid(&self) -> (r: i32)
        ensures
            r as int == self.spec_pid(),
    {
        self.pid
    }

    /// Whether the anchor was created with complete isolation.
    pub fn complete_isolation(&self) -> (r: bool)
        ensures
            r == self.spec_complete_isolation(),
    {
        self.complete_isolation
    }

    /// Path of the anchor's process-status entry; its presence is the liveness probe.
    pub fn status_path(&self) -> (r: String)
        requires
            self.wf(),
        ensures
            r@ == status_path_of(self.spec_pid()),
    {
        let s = String::from_str("/proc/").concat(decimal_string(self.pid as u32).as_str());
        s.concat("/status")
    }

    /// The shell line that injects `cmd` into the anchor's namespaces.
    pub fn injection_command(&self, cmd: &str) -> (r: String)
        requires
            self.wf(),
        ensures
            r@ == injection_line(self.spec_pid(), cmd@),
    {
        let s = String::from_str("nsenter --target ").concat(decimal_string(self.pid as u32).as_str());
        let s = s.concat(" --pid -- sh -c \"");
        let s = s.concat(cmd);
        s.concat("\"")
    }

    /// Turns a finished injected command into its outcome: `Ok` with the
    /// trimmed standard output on exit status 0, `Err` with the trimmed
    /// standard error otherwise.
    pub fn command_outcome(success: bool, stdout: &[u8], stderr: &[u8]) -> (r: Result<String, String>)
        ensures
            success ==> r is Ok && r->Ok_0@ == trimmed(lossy_text(stdout@)),
            !success ==> r is Err && r->Err_0@ == trimmed(lossy_text(stderr@)),
    {
        if success {
            let text = decode_lossy(stdout);
            Ok(trim_text(text.as_str()))
        } else {
            let text = decode_lossy(stderr);
            Err(trim_text(text.as_str()))
        }
    }
}

} // verus!
