//! Session launching: composing the service-manager invocation that runs
//! one isolated, interactive session against a resolved configuration and a
//! prepared workspace, and the record of that session's single run. The
//! orchestrator spawns nothing itself: a caller runs the composed argument
//! list as a child process with inherited standard I/O, blocks until it
//! ends, and reports how it ended.
use crate::config::ContainerConfig;
use crate::config::CpuConstraint;
use crate::config::IsolationMode;
use crate::config::MemoryConstraint;
use vstd::prelude::*;
use vstd::string::StringExecFns;

verus! {

/// The property argument that binds the unit's working directory.
pub open spec fn working_dir_property(path: Seq<char>) -> Seq<char> {
    "WorkingDirectory="@ + path
}

/// The property argument that sets the unit's memory ceiling.
pub open spec fn memory_property(limit: Seq<char>) -> Seq<char> {
    "MemoryMax="@ + limit
}

/// The property argument that sets the cores the unit may run on.
pub open spec fn cpu_property(cores: Seq<char>) -> Seq<char> {
    "AllowedCPUs="@ + cores
}

/// The shell line that runs inside the unit: an unshare of the mount and
/// PID namespaces (forking, with /proc remounted) that starts an
/// interactive shell — at the host root, or at the workspace after a pivot
/// of the filesystem root, where the seeded tree supplies a statically
/// linked shell.
pub open spec fn inner_command(mode: IsolationMode, workspace: Seq<char>) -> Seq<char> {
    match mode {
        IsolationMode::NamespaceOnly => "unshare --mount --pid --fork --mount-proc -- /bin/sh"@,
        IsolationMode::PivotRoot(_) => "unshare --mount --pid --fork --mount-proc --root="@
            + workspace + " -- /bin/busybox sh"@,
    }
}

/// The opening of every invocation: the service-manager runner, in
/// foreground mode with a controlling terminal, quiet, discarding the unit
/// if startup fails, under the configured unit name.
pub open spec fn base_args(unit_name: Seq<char>) -> Seq<Seq<char>> {
    seq!["systemd-run"@, "--tty"@, "-q"@, "--collect"@, "-u"@, unit_name]
}

/// The working-directory property: bound to the workspace path when the
/// session keeps the host root, absent when the root is pivoted to the
/// workspace itself.
pub open spec fn working_dir_args(config: ContainerConfig, mode: IsolationMode) -> Seq<Seq<char>> {
    match mode {
        IsolationMode::NamespaceOnly => seq!["-p"@, working_dir_property(config.workspace_path@)],
        IsolationMode::PivotRoot(_) => Seq::empty(),
    }
}

/// The CPU allow-list property, omitted entirely when unrestricted.
pub open spec fn cpu_args(cpu: CpuConstraint) -> Seq<Seq<char>> {
    match cpu {
        CpuConstraint::Unrestricted => Seq::empty(),
        CpuConstraint::Cores(cores) => seq!["-p"@, cpu_property(cores@)],
    }
}

/// The memory ceiling property, omitted entirely when unrestricted.
pub open spec fn memory_args(memory: MemoryConstraint) -> Seq<Seq<char>> {
    match memory {
        MemoryConstraint::Unrestricted => Seq::empty(),
        MemoryConstraint::Limit(limit) => seq!["-p"@, memory_property(limit@)],
    }
}

/// The full argument list of one session invocation, in the order the
/// service manager requires: runner and flags, unit name, properties,
/// then the isolated inner command.
pub open spec fn command_args(config: ContainerConfig, mode: IsolationMode) -> Seq<Seq<char>> {
    base_args(config.unit_name@) + working_dir_args(config, mode) + cpu_args(config.cpu)
        + memory_args(config.memory) + seq![
        "bash"@,
        "-c"@,
        inner_command(mode, config.workspace_path@),
    ]
}

/// Compose the argument list that runs one session under the given
/// resolved configuration and isolation mode.
pub fn build_command(config: &ContainerConfig, mode: &IsolationMode) -> (r: Vec<String>)
    requires
        config.wf(),
    ensures
        r.deep_view() == command_args(*config, *mode),
{
    let mut args: Vec<String> = Vec::new();
    args.push(String::from_str("systemd-run"));
    args.push(String::from_str("--tty"));
    args.push(String::from_str("-q"));
    args.push(String::from_str("--collect"));
    args.push(String::from_str("-u"));
    args.push(config.unit_name.clone());
    proof {
        assert(args.deep_view() =~~= base_args(config.unit_name@));
    }
    match mode {
        IsolationMode::NamespaceOnly => {
            args.push(String::from_str("-p"));
            args.push(
                String::from_str("WorkingDirectory=").concat(config.workspace_path.as_str()),
            );
        },
        IsolationMode::PivotRoot(_) => {},
    }
    proof {
        assert(args.deep_view() =~~= base_args(config.unit_name@) + working_dir_args(
            *config,
            *mode,
        ));
    }
    match &config.cpu {
        CpuConstraint::Unrestricted => {},
        CpuConstraint::Cores(cores) => {
            args.push(String::from_str("-p"));
            args.push(String::from_str("AllowedCPUs=").concat(cores.as_str()));
        },
    }
    proof {
        assert(args.deep_view() =~~= base_args(config.unit_name@) + working_dir_args(
            *config,
            *mode,
        ) + cpu_args(config.cpu));
    }
    match &config.memory {
        MemoryConstraint::Unrestricted => {},
        MemoryConstraint::Limit(limit) => {
            args.push(String::from_str("-p"));
            args.push(String::from_str("MemoryMax=").concat(limit.as_str()));
        },
    }
    proof {
        assert(args.deep_view() =~~= base_args(config.unit_name@) + working_dir_args(
            *config,
            *mode,
        ) + cpu_args(config.cpu) + memory_args(config.memory));
    }
    args.push(String::from_str("bash"));
    args.push(String::from_str("-c"));
    match mode {
        IsolationMode::NamespaceOnly => {
            args.push(String::from_str("unshare --mount --pid --fork --mount-proc -- /bin/sh"));
        },
        IsolationMode::PivotRoot(_) => {
            args.push(
                String::from_str("unshare --mount --pid --fork --mount-proc --root=").concat(
                    config.workspace_path.as_str(),
                ).concat(" -- /bin/busybox sh"),
            );
        },
    }
    proof {
        assert(args.deep_view() =~~= command_args(*config, *mode));
    }
    args
}

/// With both constraints unrestricted, the composed command carries no
/// resource-limit property at all: it is the base invocation, the
/// working-directory binding its mode asks for, and the inner command,
/// with nothing in between.
pub proof fn lemma_unrestricted_command_has_no_limit_properties(
    config: ContainerConfig,
    mode: IsolationMode,
)
    requires
        config.cpu is Unrestricted,
        config.memory is Unrestricted,
    ensures
        command_args(config, mode) == base_args(config.unit_name@) + working_dir_args(config, mode)
            + seq!["bash"@, "-c"@, inner_command(mode, config.workspace_path@)],
{
    assert(command_args(config, mode) =~~= base_args(config.unit_name@) + working_dir_args(
        config,
        mode,
    ) + seq!["bash"@, "-c"@, inner_command(mode, config.workspace_path@)]);
}

/// How the contained session ended: with the exit code of a normal exit,
/// or killed by a signal.
#[derive(Clone, Copy, Debug, PartialEq, Eq, Structural)]
pub enum SessionOutcome {
    Exited(i32),
    Signaled,
}

/// One session's run: the composed argument list, and how the run ended
/// once it has. Standard input, output and error are always inherited from
/// the orchestrator, so the user talks to the contained shell directly.
#[derive(Debug)]
pub struct Session {
    pub command_line: Vec<String>,
    pub outcome: Option<SessionOutcome>,
}

impl Session {
    /// Compose the session for one configuration. It has not run yet.
    pub fn prepare(config: &ContainerConfig, mode: &IsolationMode) -> (s: Session)
        requires
            config.wf(),
        ensures
            s.command_line.deep_view() == command_args(*config, *mode),
            s.outcome is None,
    {
        Session { command_line: build_command(config, mode), outcome: None }
    }

    /// Record how the single run of this session ended. A session is
    /// single-use: an outcome, once recorded, is never replaced.
    pub fn record_outcome(&mut self, outcome: SessionOutcome)
        requires
            old(self).outcome is None,
        ensures
            final(self).outcome == Some(outcome),
            final(self).command_line == old(self).command_line,
    {
        self.outcome = Some(outcome);
    }
}

} // verus!
