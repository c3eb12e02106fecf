//! The anchor's self-configuration: which isolation steps it applies to
//! itself, in which order, and which of them are fatal when they fail.
use crate::text::{decimal, decimal_string};
use vstd::prelude::*;
use vstd::string::*;

verus! {

/// Seconds of CPU time an anchor and what runs in it may use.
pub const CPU_LIMIT_SECS: u64 = 10;

/// Largest file, in bytes, an anchor and what runs in it may write.
pub const FILE_SIZE_LIMIT_BYTES: u64 = 20 * 1024 * 1024;

/// Most processes the anchor's control group may hold.
pub const PROCESS_LIMIT: u32 = 20;

/// A per-process limit that the kernel enforces.
#[derive(Clone, Copy, Debug, PartialEq, Eq, Structural)]
pub enum Resource {
    CpuSeconds,
    FileSizeBytes,
}

/// One syscall that the filter lets through when its argument `arg_index`
/// is at least `min_value`; every other syscall kills the process.
#[derive(Clone, Copy, Debug, PartialEq, Eq, Structural)]
pub struct SyscallRule {
    pub syscall: usize,
    pub arg_index: u32,
    pub min_value: u64,
}

/// One step of the anchor's configuration of itself.
#[derive(Clone, Debug)]
pub enum IsolationStep {
    /// Unshare the PID, network, mount, UTS, IPC and user namespaces at once.
    SeparateNamespaces,
    /// Create a directory and its missing parents.
    CreateDir(String),
    /// Write `contents` to the file at the path.
    WriteFile(String, String),
    /// Change the root directory.
    ChangeRoot(String),
    /// Change the working directory.
    ChangeDir(String),
    /// Install the default-deny syscall filter of `syscall_filter`.
    FilterSyscalls,
    /// Tell the operator that isolation is reduced.
    Warn(String),
    /// Set both the soft and the hard value of a limit.
    SetLimit(Resource, u64),
}

/// The mathematical value of an `IsolationStep`.
pub enum StepView {
    SeparateNamespaces,
    CreateDir(Seq<char>),
    WriteFile(Seq<char>, Seq<char>),
    ChangeRoot(Seq<char>),
    ChangeDir(Seq<char>),
    FilterSyscalls,
    Warn(Seq<char>),
    SetLimit(Resource, u64),
}

impl View for IsolationStep {
    type V = StepView;

    open spec fn view(&self) -> StepView {
        match self {
            IsolationStep::SeparateNamespaces => StepView::SeparateNamespaces,
            IsolationStep::CreateDir(p) => StepView::CreateDir(p@),
            IsolationStep::WriteFile(p, c) => StepView::WriteFile(p@, c@),
            IsolationStep::ChangeRoot(p) => StepView::ChangeRoot(p@),
            IsolationStep::ChangeDir(p) => StepView::ChangeDir(p@),
            IsolationStep::FilterSyscalls => StepView::FilterSyscalls,
            IsolationStep::Warn(m) => StepView::Warn(m@),
            IsolationStep::SetLimit(r, v) => StepView::SetLimit(*r, *v),
        }
    }
}

/// A failed step aborts the anchor, except for the best-effort limits and the warning.
pub open spec fn fatal_step(s: StepView) -> bool {
    !(s is SetLimit || s is Warn)
}

/// The control group of the anchor with id `pid`.
pub open spec fn cgroup_dir(pid: nat) -> Seq<char> {
    "/sys/fs/cgroup/sandbox_"@ + decimal(pid)
}

/// A control file in that group.
pub open spec fn cgroup_file(pid: nat, name: Seq<char>) -> Seq<char> {
    cgroup_dir(pid) + "/"@ + name
}

/// The directory the anchor confines itself to.
pub open spec fn root_dir(pid: nat) -> Seq<char> {
    "sandbox/"@ + decimal(pid) + "/root"@
}

/// The text shown when only namespaces separate the anchor.
pub open spec fn reduced_isolation_warning() -> Seq<char> {
    "Warning: Not using complete isolation setup!"@
}

/// The hardening of complete isolation, in order: control-group limits,
/// filesystem confinement, privilege drop, process-count cap, network
/// disablement, syscall filter.
pub open spec fn hardening_steps(pid: nat) -> Seq<StepView> {
    seq![
        StepView::CreateDir(cgroup_dir(pid)),
        StepView::WriteFile(cgroup_file(pid, "cpu.max"@), "50000 100000"@),
        StepView::WriteFile(cgroup_file(pid, "memory.max"@), "134217728"@),
        StepView::WriteFile(cgroup_file(pid, "cgroup.procs"@), decimal(pid)),
        StepView::ChangeRoot(root_dir(pid)),
        StepView::ChangeDir("/"@),
        StepView::WriteFile("/proc/self/setgroups"@, "deny"@),
        StepView::WriteFile("/proc/self/uid_map"@, "1000 1000 1"@),
        StepView::WriteFile("/proc/self/gid_map"@, "1000 1000 1"@),
        StepView::WriteFile(cgroup_file(pid, "pids.max"@), decimal(PROCESS_LIMIT as nat)),
        StepView::WriteFile(cgroup_file(pid, "net_cls.classid"@), "0"@),
        StepView::FilterSyscalls,
    ]
}

/// Everything an anchor with id `pid` applies to itself before it parks:
/// namespace separation, then the hardening or a warning, then the two limits.
pub open spec fn anchor_plan_of(pid: nat, complete: bool) -> Seq<StepView> {
    seq![StepView::SeparateNamespaces]
        + (if complete { hardening_steps(pid) } else { seq![StepView::Warn(reduced_isolation_warning())] })
        + seq![
            StepView::SetLimit(Resource::CpuSeconds, CPU_LIMIT_SECS),
            StepView::SetLimit(Resource::FileSizeBytes, FILE_SIZE_LIMIT_BYTES),
        ]
}

/// With complete isolation off, an anchor only separates its namespaces,
/// warns, and sets the two limits. With it on, every hardening step runs
/// between the namespace separation and the limits, each fatal on failure,
/// and the syscall filter comes last among them.
pub proof fn lemma_isolation_toggle(pid: nat)
    ensures
        anchor_plan_of(pid, false) == seq![
            StepView::SeparateNamespaces,
            StepView::Warn(reduced_isolation_warning()),
            StepView::SetLimit(Resource::CpuSeconds, CPU_LIMIT_SECS),
            StepView::SetLimit(Resource::FileSizeBytes, FILE_SIZE_LIMIT_BYTES),
        ],
        anchor_plan_of(pid, true).len() == 15,
        anchor_plan_of(pid, true)[0] == StepView::SeparateNamespaces,
        anchor_plan_of(pid, true).subrange(1, 13) == hardening_steps(pid),
        anchor_plan_of(pid, true)[12] == StepView::FilterSyscalls,
        forall|i: int| 0 <= i < 13 ==> fatal_step(#[trigger] anchor_plan_of(pid, true)[i]),
        !fatal_step(anchor_plan_of(pid, true)[13]),
        !fatal_step(anchor_plan_of(pid, true)[14]),
{
    assert(anchor_plan_of(pid, false) =~= seq![
        StepView::SeparateNamespaces,
        StepView::Warn(reduced_isolation_warning()),
        StepView::SetLimit(Resource::CpuSeconds, CPU_LIMIT_SECS),
        StepView::SetLimit(Resource::FileSizeBytes, FILE_SIZE_LIMIT_BYTES),
    ]);
    assert(anchor_plan_of(pid, true).subrange(1, 13) =~= hardening_steps(pid));
}

/// The views of a list of steps.
pub open spec fn steps_view(v: Seq<IsolationStep>) -> Seq<StepView> {
    v.map_values(|s: IsolationStep| s@)
}

impl IsolationStep {
    /// Whether a failure of this step must abort the anchor.
    pub fn is_fatal(&self) -> (r: bool)
        ensures
            r == fatal_step(self@),
    {
        match self {
            IsolationStep::SetLimit(_, _) | IsolationStep::Warn(_) => false,
            _ => true,
        }
    }
}

fn cgroup_file_string(pid: u32, name: &str) -> (r: String)
    ensures
        r@ == cgroup_file(pid as nat, name@),
{
    let s = String::from_str("/sys/fs/cgroup/sandbox_").concat(decimal_string(pid).as_str());
    s.concat("/").concat(name)
}

/// The steps an anchor with id `pid` applies to itself, in order.
pub fn anchor_plan(pid: i32, complete: bool) -> (r: Vec<IsolationStep>)
    requires
        pid > 0,
    ensures
        steps_view(r@) == anchor_plan_of(pid as nat, complete),
{
    let id = pid as u32;
    let mut plan: Vec<IsolationStep> = Vec::new();
    plan.push(IsolationStep::SeparateNamespaces);
    if complete {
        let dir = String::from_str("/sys/fs/cgroup/sandbox_").concat(decimal_string(id).as_str());
        plan.push(IsolationStep::CreateDir(dir));
        plan.push(IsolationStep::WriteFile(cgroup_file_string(id, "cpu.max"), String::from_str("50000 100000")));
        plan.push(IsolationStep::WriteFile(cgroup_file_string(id, "memory.max"), String::from_str("134217728")));
        plan.push(IsolationStep::WriteFile(cgroup_file_string(id, "cgroup.procs"), decimal_string(id)));
        let root = String::from_str("sandbox/").concat(decimal_string(id).as_str()).concat("/root");
        plan.push(IsolationStep::ChangeRoot(root));
        plan.push(IsolationStep::ChangeDir(String::from_str("/")));
        plan.push(IsolationStep::WriteFile(String::from_str("/proc/self/setgroups"), String::from_str("deny")));
        plan.push(IsolationStep::WriteFile(String::from_str("/proc/self/uid_map"), String::from_str("1000 1000 1")));
        plan.push(IsolationStep::WriteFile(String::from_str("/proc/self/gid_map"), String::from_str("1000 1000 1")));
        plan.push(IsolationStep::WriteFile(cgroup_file_string(id, "pids.max"), decimal_string(PROCESS_LIMIT)));
        plan.push(IsolationStep::WriteFile(cgroup_file_string(id, "net_cls.classid"), String::from_str("0")));
        plan.push(IsolationStep::FilterSyscalls);
    } else {
        plan.push(IsolationStep::Warn(String::from_str("Warning: Not using complete isolation setup!")));
    }
    plan.push(IsolationStep::SetLimit(Resource::CpuSeconds, CPU_LIMIT_SECS));
    plan.push(IsolationStep::SetLimit(Resource::FileSizeBytes, FILE_SIZE_LIMIT_BYTES));
    assert(steps_view(plan@) =~= anchor_plan_of(pid as nat, complete));
    plan
}

/// The syscall numbers (x86-64) of read, write and exit.
pub open spec fn allowed_syscalls() -> Seq<usize> {
    seq![0usize, 1usize, 60usize]
}

/// The rules of the anchor's syscall filter: read, write and exit, each
/// guarded by a check on its first argument that always holds.
pub fn syscall_filter() -> (r: Vec<SyscallRule>)
    ensures
        r@.len() == allowed_syscalls().len(),
        forall|i: int| 0 <= i < r@.len() ==> (#[trigger] r@[i]) == (SyscallRule {
            syscall: allowed_syscalls()[i],
            arg_index: 0,
            min_value: 0,
        }),
{
    let mut rules: Vec<SyscallRule> = Vec::new();
    rules.push(SyscallRule { syscall: 0, arg_index: 0, min_value: 0 });
    rules.push(SyscallRule { syscall: 1, arg_index: 0, min_value: 0 });
    rules.push(SyscallRule { syscall: 60, arg_index: 0, min_value: 0 });
    rules
}

} // verus!
