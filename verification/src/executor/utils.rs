//! The limits a compiled program runs under.

use vstd::prelude::*;

verus! {

/// A per-process resource that a compiled program is limited in.
#[derive(Copy, Clone, Debug, PartialEq, Eq, Structural)]
pub enum Resource {
    /// Address space, in bytes.
    AddressSpace,
    /// Size of core dumps, in bytes.
    CoreFile,
    /// Data segment, in bytes.
    DataSegment,
    /// Size of files it writes, in bytes.
    FileSize,
    /// Number of processes.
    Processes,
    /// Stack, in bytes.
    Stack,
    /// Number of open file descriptors.
    OpenFiles,
}

/// A soft and hard limit on one resource.
#[derive(Copy, Clone, Debug, PartialEq, Eq, Structural)]
pub struct ResourceLimit {
    pub resource: Resource,
    pub soft: u64,
    pub hard: u64,
}

/// How a compiled program is set up before it starts: its resource limits,
/// set in this order, and its scheduling priority.
pub struct ProcessSetup {
    pub limits: Vec<ResourceLimit>,
    pub priority: i32,
}

/// The limits, in order, that a compiled program runs under.
pub open spec fn sandbox_limits() -> Seq<ResourceLimit> {
    seq![
        ResourceLimit { resource: Resource::AddressSpace, soft: 10485760, hard: 10485760 },
        ResourceLimit { resource: Resource::CoreFile, soft: 0, hard: 0 },
        ResourceLimit { resource: Resource::DataSegment, soft: 5242880, hard: 5242880 },
        ResourceLimit { resource: Resource::FileSize, soft: 0, hard: 0 },
        ResourceLimit { resource: Resource::Processes, soft: 2, hard: 2 },
        ResourceLimit { resource: Resource::Stack, soft: 2097152, hard: 2097152 },
        ResourceLimit { resource: Resource::OpenFiles, soft: 4, hard: 4 },
    ]
}

/// The set-up of a compiled program: 10 MiB of address space, 5 MiB of
/// data, 2 MiB of stack, no core dumps and no file writes, at most two
/// processes and four open files, at the lowest priority 19 (set as the
/// process priority, not by raising niceness). Nothing is printed: applying
/// it is left to the caller, between fork and exec. Its time limit is set
/// apart, per run (see `Executor::compile_and_run`).
pub fn setup_process_env_for_exec() -> (s: ProcessSetup)
    ensures
        s.limits@ == sandbox_limits(),
        s.priority == 19,
{
    let limits = vec![
        ResourceLimit { resource: Resource::AddressSpace, soft: 10485760, hard: 10485760 },
        ResourceLimit { resource: Resource::CoreFile, soft: 0, hard: 0 },
        ResourceLimit { resource: Resource::DataSegment, soft: 5242880, hard: 5242880 },
        ResourceLimit { resource: Resource::FileSize, soft: 0, hard: 0 },
        ResourceLimit { resource: Resource::Processes, soft: 2, hard: 2 },
        ResourceLimit { resource: Resource::Stack, soft: 2097152, hard: 2097152 },
        ResourceLimit { resource: Resource::OpenFiles, soft: 4, hard: 4 },
    ];
    assert(limits@ =~= sandbox_limits());
    ProcessSetup { limits, priority: 19 }
}

/// No limit lets a program raise its soft limit past the hard one.
pub proof fn lemma_sandbox_limits_consistent()
    ensures
        forall|i: int| 0 <= i < sandbox_limits().len() ==> #[trigger] sandbox_limits()[i].soft
            <= sandbox_limits()[i].hard,
{
}

/// The compiled program may not write files or dump core, may start at
/// most two processes and open four files, and has 10 MiB of address space,
/// 5 MiB of data and 2 MiB of stack; each resource is limited once.
pub proof fn lemma_sandbox_values()
    ensures
        sandbox_limits().len() == 7,
        forall|i: int, j: int|
            0 <= i < j < sandbox_limits().len() ==> (#[trigger] sandbox_limits()[i]).resource
                != (#[trigger] sandbox_limits()[j]).resource,
        forall|i: int|
            0 <= i < sandbox_limits().len() ==> {
                let l = #[trigger] sandbox_limits()[i];
                &&& l.soft == l.hard
                &&& l.resource == Resource::FileSize ==> l.hard == 0
                &&& l.resource == Resource::CoreFile ==> l.hard == 0
                &&& l.resource == Resource::Processes ==> l.hard == 2
                &&& l.resource == Resource::OpenFiles ==> l.hard == 4
                &&& l.resource == Resource::AddressSpace ==> l.hard == 10 * 1024 * 1024
                &&& l.resource == Resource::DataSegment ==> l.hard == 5 * 1024 * 1024
                &&& l.resource == Resource::Stack ==> l.hard == 2 * 1024 * 1024
            },
{
}

} // verus!
