//! A container lifecycle orchestrator: it turns user-supplied resource
//! constraints (CPU set, memory ceiling, workspace directory) into a
//! validated configuration, plans the workspace directory's lifetime, and
//! composes the service-manager invocation that runs the isolated session.
//!
//! The orchestrator itself performs no I/O: callers check what exists on
//! disk, hand the answers in as plain values, and carry out the planned
//! filesystem steps and the composed command.
pub mod config;
pub mod launcher;
pub mod orchestration;
pub mod workspace;
