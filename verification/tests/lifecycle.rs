use rustainer::config::ConfigError;
use rustainer::config::IsolationMode;
use rustainer::config::resolve_config;
use rustainer::launcher::Session;
use rustainer::launcher::SessionOutcome;
use rustainer::launcher::build_command;
use rustainer::orchestration::prepare_invocation;
use rustainer::workspace::EnsurePlan;
use rustainer::workspace::TeardownPlan;
use rustainer::workspace::plan_ensure;
use rustainer::workspace::plan_teardown;

fn prepared(
    cwd: &str,
    dir: &str,
    cpus: &str,
    memory: &str,
    template: Option<&str>,
) -> Result<rustainer::orchestration::InvocationPlan, ConfigError> {
    prepare_invocation(
        cwd.to_string(),
        dir.to_string(),
        cpus.to_string(),
        memory.to_string(),
        template.map(|t| t.to_string()),
    )
}

#[test]
fn unrestricted_session_gets_no_resource_properties() {
    let plan = prepared("/home/user", "", "All Threads", "No Limit", None).unwrap();
    let args: Vec<&str> = plan.session.command_line.iter().map(|a| a.as_str()).collect();
    assert_eq!(
        args,
        vec![
            "systemd-run",
            "--tty",
            "-q",
            "--collect",
            "-u",
            "rustainer",
            "-p",
            "WorkingDirectory=/home/user/container",
            "bash",
            "-c",
            "unshare --mount --pid --fork --mount-proc -- /bin/sh",
        ]
    );
    assert!(args.iter().all(|a| !a.starts_with("MemoryMax=")));
    assert!(args.iter().all(|a| !a.starts_with("AllowedCPUs=")));
}

#[test]
fn constrained_pivot_session_gets_every_property() {
    let plan = prepared("/cwd", "/ws", "1,2", "512M", Some("./minifs")).unwrap();
    let args: Vec<&str> = plan.session.command_line.iter().map(|a| a.as_str()).collect();
    assert_eq!(
        args,
        vec![
            "systemd-run",
            "--tty",
            "-q",
            "--collect",
            "-u",
            "rustainer",
            "-p",
            "AllowedCPUs=1,2",
            "-p",
            "MemoryMax=512M",
            "bash",
            "-c",
            "unshare --mount --pid --fork --mount-proc --root=/ws -- /bin/busybox sh",
        ]
    );
    assert!(matches!(plan.mode, IsolationMode::PivotRoot(t) if t == "./minifs"));
}

#[test]
fn build_command_binds_working_directory_only_without_pivot() {
    let config = resolve_config(
        "/cwd".to_string(),
        "/ws".to_string(),
        "All Threads".to_string(),
        "No Limit".to_string(),
    )
    .unwrap();
    let namespace_only = build_command(&config, &IsolationMode::NamespaceOnly);
    assert!(namespace_only.iter().any(|a| a == "WorkingDirectory=/ws"));
    let pivot = build_command(&config, &IsolationMode::PivotRoot("./minifs".to_string()));
    assert!(pivot.iter().all(|a| !a.starts_with("WorkingDirectory=")));
    assert!(pivot
        .iter()
        .any(|a| a == "unshare --mount --pid --fork --mount-proc --root=/ws -- /bin/busybox sh"));
}

#[test]
fn a_renamed_unit_appears_in_the_command() {
    let mut config = resolve_config(
        "/cwd".to_string(),
        "/ws".to_string(),
        "All Threads".to_string(),
        "No Limit".to_string(),
    )
    .unwrap();
    assert_eq!(config.unit_name, "rustainer");
    config.set_unit_name("rustainer-4217".to_string());
    let command = build_command(&config, &IsolationMode::NamespaceOnly);
    assert_eq!(command[4], "-u");
    assert_eq!(command[5], "rustainer-4217");
}

#[test]
fn invalid_memory_prevents_any_plan() {
    let r = prepared("/cwd", "", "All Threads", "512X", None);
    let e = r.unwrap_err();
    assert_eq!(e, ConfigError::InvalidMemory);
    assert!(e.message().contains("Invalid memory format"));
}

#[test]
fn ensure_is_a_no_op_on_an_existing_workspace() {
    let plan = plan_ensure(true, &IsolationMode::NamespaceOnly);
    assert!(matches!(plan, EnsurePlan::AlreadyExists));
    let plan = plan_ensure(true, &IsolationMode::PivotRoot("./minifs".to_string()));
    assert!(matches!(plan, EnsurePlan::AlreadyExists));
}

#[test]
fn ensure_creates_once_then_leaves_alone() {
    let first = plan_ensure(false, &IsolationMode::NamespaceOnly);
    assert!(matches!(first, EnsurePlan::Create));
    let second = plan_ensure(true, &IsolationMode::NamespaceOnly);
    assert!(matches!(second, EnsurePlan::AlreadyExists));
}

#[test]
fn ensure_seeds_from_the_template() {
    let plan = plan_ensure(false, &IsolationMode::PivotRoot("./minifs".to_string()));
    assert!(matches!(plan, EnsurePlan::CreateAndSeed(t) if t == "./minifs"));
}

#[test]
fn teardown_removes_whatever_exists() {
    assert!(matches!(plan_teardown(true), TeardownPlan::RemoveTree));
    assert!(matches!(plan_teardown(false), TeardownPlan::NothingToRemove));
}

#[test]
fn teardown_plan_ignores_how_the_session_ended() {
    for _outcome in [
        SessionOutcome::Exited(0),
        SessionOutcome::Exited(7),
        SessionOutcome::Signaled,
    ] {
        assert!(matches!(plan_teardown(true), TeardownPlan::RemoveTree));
    }
}

#[test]
fn a_session_records_one_outcome() {
    let config = resolve_config(
        "/cwd".to_string(),
        "/ws".to_string(),
        "All Threads".to_string(),
        "No Limit".to_string(),
    )
    .unwrap();
    let mut session = Session::prepare(&config, &IsolationMode::NamespaceOnly);
    assert!(session.outcome.is_none());
    session.record_outcome(SessionOutcome::Exited(0));
    assert_eq!(session.outcome, Some(SessionOutcome::Exited(0)));
}

#[test]
fn preexisting_workspace_still_launches_and_tears_down() {
    let plan = prepared("/cwd", "/ws", "All Threads", "No Limit", None).unwrap();
    assert!(matches!(
        plan_ensure(true, &plan.mode),
        EnsurePlan::AlreadyExists
    ));
    assert_eq!(plan.session.command_line[0], "systemd-run");
    assert!(matches!(plan_teardown(true), TeardownPlan::RemoveTree));
}
