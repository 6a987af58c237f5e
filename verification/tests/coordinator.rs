use nscb_runner::coordinator::{cancel_take, cancel_verdict, check_launch, record_spawn, CancelAction};
use nscb_runner::errors::ToolError;
use nscb_runner::registry::Registry;
use nscb_runner::watcher::{ExitStatus, Watcher};

fn launch_ok(registry: &mut Registry, op: &str, pid: u32) -> Watcher {
    check_launch(registry, true).expect("validation should pass");
    record_spawn(registry, op, Some(pid)).expect("spawn should be recorded")
}

#[test]
fn registry_starts_empty() {
    let registry = Registry::new();
    assert_eq!(registry.running_pid(), None);
}

#[test]
fn missing_backend_rejected_before_spawn() {
    // Launch with a nonexistent external tool: ConfigurationError
    // synchronously, registry untouched, no watcher handed out.
    let registry = Registry::new();
    let verdict = check_launch(&registry, false);
    assert_eq!(verdict, Err(ToolError::ConfigurationError));
    assert_eq!(registry.running_pid(), None);
}

#[test]
fn second_launch_fails_while_running() {
    let mut registry = Registry::new();
    let _watcher = launch_ok(&mut registry, "pack", 41);
    assert_eq!(registry.running_pid(), Some(41));
    assert_eq!(check_launch(&registry, true), Err(ToolError::ConcurrencyError));
    assert_eq!(check_launch(&registry, false), Err(ToolError::ConcurrencyError));
    match record_spawn(&mut registry, "pack", Some(77)) {
        Err(e) => assert_eq!(e, ToolError::ConcurrencyError),
        Ok(_) => panic!("second launch must not succeed"),
    }
    assert_eq!(registry.running_pid(), Some(41));
}

#[test]
fn launch_allowed_again_after_completion() {
    let mut registry = Registry::new();
    let watcher = launch_ok(&mut registry, "pack", 41);
    let _done = watcher.finish(&mut registry, ExitStatus::Code(0));
    assert_eq!(registry.running_pid(), None);
    let _watcher = launch_ok(&mut registry, "unpack", 42);
    assert_eq!(registry.running_pid(), Some(42));
}

#[test]
fn spawn_failure_rolls_back() {
    let mut registry = Registry::new();
    check_launch(&registry, true).expect("validation should pass");
    match record_spawn(&mut registry, "pack", None) {
        Err(e) => assert_eq!(e, ToolError::SpawnError),
        Ok(_) => panic!("a failed spawn must not hand out a watcher"),
    }
    assert_eq!(registry.running_pid(), None);
}

#[test]
fn cancel_kills_tracked_process() {
    // Launch succeeds, then cancel before exit: registry empty immediately,
    // the tree kill is requested, and the watcher still emits its terminal
    // notification, with the sentinel since the process was killed.
    let mut registry = Registry::new();
    let watcher = launch_ok(&mut registry, "pack", 4242);
    let action = cancel_take(&mut registry);
    assert_eq!(action, CancelAction::KillTree(4242));
    assert_eq!(registry.running_pid(), None);
    assert_eq!(cancel_verdict(&action, true), Ok(()));
    let done = watcher.finish(&mut registry, ExitStatus::Unknown);
    assert_eq!(done.code, -1);
    assert_eq!(done.op.as_str(), "pack");
    assert_eq!(registry.running_pid(), None);
}

#[test]
fn cancel_twice_never_errors() {
    let mut registry = Registry::new();
    let _watcher = launch_ok(&mut registry, "pack", 7);
    let first = cancel_take(&mut registry);
    assert_eq!(first, CancelAction::KillTree(7));
    let second = cancel_take(&mut registry);
    assert_eq!(second, CancelAction::Nothing);
    assert_eq!(cancel_verdict(&second, true), Ok(()));
    assert_eq!(cancel_verdict(&second, false), Ok(()));
}

#[test]
fn cancel_of_nothing_is_ok() {
    let mut registry = Registry::new();
    let action = cancel_take(&mut registry);
    assert_eq!(action, CancelAction::Nothing);
    assert_eq!(cancel_verdict(&action, false), Ok(()));
    assert_eq!(registry.running_pid(), None);
}

#[test]
fn failed_kill_surfaces_termination_error() {
    let mut registry = Registry::new();
    let _watcher = launch_ok(&mut registry, "pack", 9);
    let action = cancel_take(&mut registry);
    assert_eq!(cancel_verdict(&action, false), Err(ToolError::TerminationError));
}

#[test]
fn error_messages() {
    assert_eq!(ToolError::ConfigurationError.message(), "backend not found");
    assert_eq!(ToolError::ConcurrencyError.message(), "A process is already running");
    assert_eq!(ToolError::SpawnError.message(), "Failed to start the backend process");
    assert_eq!(ToolError::LockError.message(), "Failed to lock runner state");
    assert_eq!(ToolError::IoError.message(), "File operation failed");
    assert_eq!(ToolError::TerminationError.message(), "Failed to stop running process");
}
