use rustainer::config::ConfigError;
use rustainer::config::ContainerConfig;
use rustainer::config::CpuConstraint;
use rustainer::config::MemoryConstraint;
use rustainer::config::resolve_config;
use rustainer::config::str_eq;
use rustainer::config::validate_cpu_spec;
use rustainer::config::validate_memory_spec;

#[test]
fn cpu_specs_in_grammar_are_accepted() {
    assert!(validate_cpu_spec("1,2,3"));
    assert!(validate_cpu_spec("1 5 7"));
    assert!(validate_cpu_spec("4"));
    assert!(validate_cpu_spec("0"));
    assert!(validate_cpu_spec("10,11 12"));
    assert!(validate_cpu_spec("007"));
}

#[test]
fn cpu_specs_outside_grammar_are_rejected() {
    assert!(!validate_cpu_spec("abc"));
    assert!(!validate_cpu_spec(""));
    assert!(!validate_cpu_spec("1,,2"));
    assert!(!validate_cpu_spec("1,"));
    assert!(!validate_cpu_spec(",1"));
    assert!(!validate_cpu_spec("1, 2"));
    assert!(!validate_cpu_spec("1;2"));
    assert!(!validate_cpu_spec("1,2,a"));
    assert!(!validate_cpu_spec(" "));
    assert!(!validate_cpu_spec("一,二"));
}

#[test]
fn memory_specs_in_grammar_are_accepted() {
    assert!(validate_memory_spec("512M"));
    assert!(validate_memory_spec("1G"));
    assert!(validate_memory_spec("300K"));
    assert!(validate_memory_spec("0100M"));
}

#[test]
fn memory_specs_outside_grammar_are_rejected() {
    assert!(!validate_memory_spec("512MB"));
    assert!(!validate_memory_spec("-5M"));
    assert!(!validate_memory_spec("512"));
    assert!(!validate_memory_spec("0M"));
    assert!(!validate_memory_spec("00G"));
    assert!(!validate_memory_spec("M"));
    assert!(!validate_memory_spec(""));
    assert!(!validate_memory_spec("512m"));
    assert!(!validate_memory_spec("5 12M"));
    assert!(!validate_memory_spec("512MG"));
}

#[test]
fn str_eq_compares_characters() {
    assert!(str_eq("", ""));
    assert!(str_eq("All Threads", "All Threads"));
    assert!(!str_eq("All Threads", "All Thread"));
    assert!(!str_eq("No Limit", "no limit"));
    assert!(str_eq("日本", "日本"));
    assert!(!str_eq("日本", "日末"));
}

fn resolved(cwd: &str, dir: &str, cpus: &str, memory: &str) -> Result<ContainerConfig, ConfigError> {
    resolve_config(
        cwd.to_string(),
        dir.to_string(),
        cpus.to_string(),
        memory.to_string(),
    )
}

#[test]
fn unset_inputs_resolve_to_defaults() {
    let config = resolved("/home/user", "", "All Threads", "No Limit").unwrap();
    assert_eq!(config.workspace_path, "/home/user/container");
    assert!(matches!(config.cpu, CpuConstraint::Unrestricted));
    assert!(matches!(config.memory, MemoryConstraint::Unrestricted));
    assert_eq!(config.unit_name, "rustainer");
}

#[test]
fn explicit_directory_is_used_verbatim() {
    let config = resolved("/home/user", "relative/path", "All Threads", "No Limit").unwrap();
    assert_eq!(config.workspace_path, "relative/path");
    let config = resolved("/home/user", "/abs/ws", "All Threads", "No Limit").unwrap();
    assert_eq!(config.workspace_path, "/abs/ws");
}

#[test]
fn explicit_constraints_are_kept() {
    let config = resolved("/cwd", "/ws", "1,2,3", "512M").unwrap();
    match config.cpu {
        CpuConstraint::Cores(cores) => assert_eq!(cores, "1,2,3"),
        CpuConstraint::Unrestricted => panic!("cpu list was dropped"),
    }
    match config.memory {
        MemoryConstraint::Limit(limit) => assert_eq!(limit, "512M"),
        MemoryConstraint::Unrestricted => panic!("memory limit was dropped"),
    }
}

#[test]
fn invalid_memory_is_rejected() {
    let r = resolved("/cwd", "", "All Threads", "512X");
    assert_eq!(r.unwrap_err(), ConfigError::InvalidMemory);
}

#[test]
fn invalid_cpu_is_rejected() {
    let r = resolved("/cwd", "", "one,two", "No Limit");
    assert_eq!(r.unwrap_err(), ConfigError::InvalidCpu);
}

#[test]
fn memory_is_examined_before_cpu() {
    let r = resolved("/cwd", "", "one,two", "512X");
    assert_eq!(r.unwrap_err(), ConfigError::InvalidMemory);
}

#[test]
fn error_messages_name_the_fault() {
    let memory_message = ConfigError::InvalidMemory.message();
    assert_eq!(
        memory_message,
        "Invalid memory format. Use a number followed by K, M, or G."
    );
    assert!(memory_message.contains("Invalid memory format"));
    assert_eq!(
        ConfigError::InvalidCpu.message(),
        "Invalid CPU format. Use a list of numbers separated by commas or spaces."
    );
}
