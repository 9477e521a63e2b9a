//! The invocation pipeline: resolve the raw inputs, compose the session
//! command, and model the workspace across the whole lifecycle. Validation
//! comes first and touches nothing, so a rejected input leaves no partial
//! state: no directory is created and nothing is launched.
use crate::config::ConfigError;
use crate::config::ContainerConfig;
use crate::config::IsolationMode;
use crate::config::cpu_input_ok;
use crate::config::default_unit_name;
use crate::config::memory_input_ok;
use crate::config::resolve_config;
use crate::config::resolved_directory;
use crate::launcher::Session;
use crate::launcher::SessionOutcome;
use crate::launcher::command_args;
use crate::workspace::DirContent;
use crate::workspace::ensure_model;
use crate::workspace::teardown_model;
use vstd::prelude::*;

verus! {

/// Everything one invocation needs before it may touch the filesystem or
/// spawn anything: the resolved configuration, the isolation mode, and the
/// composed session, not yet run.
#[derive(Debug)]
pub struct InvocationPlan {
    pub config: ContainerConfig,
    pub mode: IsolationMode,
    pub session: Session,
}

/// Resolve the raw user inputs and compose the session command, or reject
/// the inputs. No filesystem step and no spawn happens here; a rejection
/// therefore leaves no partial state anywhere.
pub fn prepare_invocation(
    cwd: String,
    directory: String,
    cpus: String,
    memory: String,
    template: Option<String>,
) -> (r: Result<InvocationPlan, ConfigError>)
    ensures
        r is Ok <==> cpu_input_ok(cpus@) && memory_input_ok(memory@),
        !memory_input_ok(memory@) ==> r == Err::<InvocationPlan, ConfigError>(
            ConfigError::InvalidMemory,
        ),
        memory_input_ok(memory@) && !cpu_input_ok(cpus@) ==> r == Err::<
            InvocationPlan,
            ConfigError,
        >(ConfigError::InvalidCpu),
        r matches Ok(p) ==> {
            &&& p.config.wf()
            &&& p.config.workspace_path@ == resolved_directory(cwd@, directory@)
            &&& p.config.cpu.resolves(cpus@)
            &&& p.config.memory.resolves(memory@)
            &&& p.config.unit_name@ == default_unit_name()
            &&& (template matches Some(t) ==> (p.mode matches IsolationMode::PivotRoot(u) && u@
                == t@))
            &&& (template is None ==> p.mode is NamespaceOnly)
            &&& p.session.command_line.deep_view() == command_args(p.config, p.mode)
            &&& p.session.outcome is None
        },
{
    let config = match resolve_config(cwd, directory, cpus, memory) {
        Ok(c) => c,
        Err(e) => {
            return Err(e);
        },
    };
    let mode = match template {
        Some(t) => IsolationMode::PivotRoot(t),
        None => IsolationMode::NamespaceOnly,
    };
    let session = Session::prepare(&config, &mode);
    Ok(InvocationPlan { config, mode, session })
}

/// The workspace state after a full lifecycle that began with the directory
/// in state `w`: ensure it, run the session until it ends as `outcome`
/// says, then tear the directory down.
pub open spec fn session_end_state(
    w: DirContent,
    template: Option<Seq<char>>,
    outcome: SessionOutcome,
) -> DirContent {
    teardown_model(ensure_model(w, template))
}

/// Teardown is unconditional: after a full lifecycle the workspace path is
/// absent, whatever stood there before the session and however the session
/// ended — exit code zero, a non-zero code, or a signal.
pub proof fn lemma_teardown_unconditional(
    w: DirContent,
    template: Option<Seq<char>>,
    outcome: SessionOutcome,
)
    ensures
        !session_end_state(w, template, outcome).present(),
{
}

} // verus!
