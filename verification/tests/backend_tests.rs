use systemd_shim::backend::{
    authorize_repair, backend_program, check_privileges, parse_failure, spawn_failure,
    BackendTask, ProcessOutcome, ShellAction, ShellEvent, OWNER_ALL,
};

fn repair(target: &str) -> BackendTask {
    BackendTask::Repair { target: target.to_string() }
}

fn run_action(args: &[&str]) -> ShellAction {
    ShellAction::Run {
        program: "./bin/network-ambulance-d".to_string(),
        args: args.iter().map(|a| a.to_string()).collect(),
    }
}

fn exited(success: bool, stdout: &[u8], stderr: &[u8]) -> ProcessOutcome {
    ProcessOutcome::Exited { success, stdout: stdout.to_vec(), stderr: stderr.to_vec() }
}

#[test]
fn backend_program_path() {
    assert_eq!(backend_program(), "./bin/network-ambulance-d");
}

#[test]
fn diagnose_arguments() {
    assert_eq!(BackendTask::Diagnose.arguments(), vec!["diagnose", "--json"]);
}

#[test]
fn repair_arguments() {
    assert_eq!(repair("dns").arguments(), vec!["repair", "dns", "--json"]);
    assert_eq!(repair("").arguments(), vec!["repair", "", "--json"]);
    assert_eq!(repair("--all now").arguments(), vec!["repair", "--all now", "--json"]);
}

#[test]
fn is_repair_tells_the_tasks_apart() {
    assert!(repair("dns").is_repair());
    assert!(!BackendTask::Diagnose.is_repair());
}

#[test]
fn owner_mask_value() {
    assert_eq!(OWNER_ALL, 448);
}

#[test]
fn repair_is_authorized_when_owner_holds_every_right() {
    assert_eq!(authorize_repair(0o755), Ok(()));
    assert_eq!(authorize_repair(0o700), Ok(()));
    assert_eq!(authorize_repair(0o40755), Ok(()));
    assert_eq!(authorize_repair(u32::MAX), Ok(()));
}

#[test]
fn repair_is_refused_when_an_owner_right_is_missing() {
    let refusal = Err("Repair operations require administrator privileges".to_string());
    assert_eq!(authorize_repair(0o555), refusal);
    assert_eq!(authorize_repair(0o655), refusal);
    assert_eq!(authorize_repair(0o355), refusal);
    assert_eq!(authorize_repair(0o077), refusal);
    assert_eq!(authorize_repair(0), refusal);
}

#[test]
fn only_user_zero_is_privileged() {
    assert_eq!(check_privileges(0), Ok(true));
    assert_eq!(check_privileges(1), Ok(false));
    assert_eq!(check_privileges(1000), Ok(false));
    assert_eq!(check_privileges(u32::MAX), Ok(false));
}

#[test]
fn failure_messages() {
    assert_eq!(spawn_failure("No such file"), "Failed to execute D backend: No such file");
    assert_eq!(
        parse_failure("missing field `dns` at line 1 column 2"),
        "Failed to parse JSON: missing field `dns` at line 1 column 2"
    );
    assert_eq!(BackendTask::Diagnose.exit_failure("boom"), "D backend failed: boom");
    assert_eq!(repair("dns").exit_failure("boom"), "D backend repair failed: boom");
    assert_eq!(spawn_failure(""), "Failed to execute D backend: ");
}

#[test]
fn successful_run_yields_standard_output() {
    let document = br#"{"version":"1","tool":"x"}"#;
    assert_eq!(
        BackendTask::Diagnose.output(exited(true, document, b"warning")),
        Ok(document.to_vec())
    );
    assert_eq!(repair("dns").output(exited(true, b"", b"")), Ok(Vec::new()));
}

#[test]
fn failed_run_yields_standard_error() {
    assert_eq!(
        BackendTask::Diagnose.output(exited(false, b"{}", b"no route to host\n")),
        Err("D backend failed: no route to host\n".to_string())
    );
    assert_eq!(
        repair("dns").output(exited(false, b"{}", b"permission denied")),
        Err("D backend repair failed: permission denied".to_string())
    );
}

#[test]
fn standard_error_is_decoded_leniently() {
    assert_eq!(
        BackendTask::Diagnose.output(exited(false, b"", &[b'a', 0xff, b'b'])),
        Err("D backend failed: a\u{fffd}b".to_string())
    );
    assert_eq!(
        BackendTask::Diagnose.output(exited(false, b"", "gr\u{fc}n".as_bytes())),
        Err("D backend failed: gr\u{fc}n".to_string())
    );
}

#[test]
fn backend_that_cannot_start_yields_its_reason() {
    let outcome = ProcessOutcome::NotStarted { reason: "No such file or directory".to_string() };
    assert_eq!(
        repair("dns").output(outcome),
        Err("Failed to execute D backend: No such file or directory".to_string())
    );
}

#[test]
fn diagnostics_start_with_the_backend() {
    let task = BackendTask::Diagnose;
    assert_eq!(task.next(ShellEvent::Start { unix: true }), run_action(&["diagnose", "--json"]));
    assert_eq!(task.next(ShellEvent::Start { unix: false }), run_action(&["diagnose", "--json"]));
}

#[test]
fn repair_starts_with_the_root_directory_where_there_are_modes() {
    let task = repair("routing");
    assert_eq!(task.next(ShellEvent::Start { unix: true }), ShellAction::ReadRootMode);
    assert_eq!(
        task.next(ShellEvent::Start { unix: false }),
        run_action(&["repair", "routing", "--json"])
    );
}

#[test]
fn root_mode_decides_whether_the_repair_runs() {
    let task = repair("routing");
    assert_eq!(
        task.next(ShellEvent::RootMode { mode: 0o755 }),
        run_action(&["repair", "routing", "--json"])
    );
    assert_eq!(
        task.next(ShellEvent::RootMode { mode: 0o555 }),
        ShellAction::Fail {
            message: "Repair operations require administrator privileges".to_string()
        }
    );
}

#[test]
fn unreadable_root_fails_with_its_reason() {
    assert_eq!(
        repair("dns").next(ShellEvent::RootUnreadable { reason: "EACCES".to_string() }),
        ShellAction::Fail { message: "EACCES".to_string() }
    );
}

#[test]
fn finished_run_is_decoded_or_fails() {
    let task = BackendTask::Diagnose;
    assert_eq!(
        task.next(ShellEvent::Ran { outcome: exited(true, b"{}", b"") }),
        ShellAction::Decode { document: b"{}".to_vec() }
    );
    assert_eq!(
        task.next(ShellEvent::Ran { outcome: exited(false, b"{}", b"bad") }),
        ShellAction::Fail { message: "D backend failed: bad".to_string() }
    );
    assert_eq!(
        repair("dns").next(ShellEvent::Ran { outcome: exited(false, b"{}", b"bad") }),
        ShellAction::Fail { message: "D backend repair failed: bad".to_string() }
    );
    assert_eq!(
        task.next(ShellEvent::Ran {
            outcome: ProcessOutcome::NotStarted { reason: "gone".to_string() }
        }),
        ShellAction::Fail { message: "Failed to execute D backend: gone".to_string() }
    );
}

#[test]
fn decoding_ends_the_task() {
    assert_eq!(BackendTask::Diagnose.next(ShellEvent::Decoded), ShellAction::Succeed);
    assert_eq!(repair("dns").next(ShellEvent::Decoded), ShellAction::Succeed);
    assert_eq!(
        BackendTask::Diagnose
            .next(ShellEvent::Undecodable { detail: "expected value at line 1".to_string() }),
        ShellAction::Fail { message: "Failed to parse JSON: expected value at line 1".to_string() }
    );
}

#[test]
fn a_whole_repair() {
    let task = repair("dns");
    let mut event = ShellEvent::Start { unix: true };
    let mut steps = Vec::new();
    loop {
        let action = task.next(event);
        event = match &action {
            ShellAction::ReadRootMode => ShellEvent::RootMode { mode: 0o755 },
            ShellAction::Run { .. } => ShellEvent::Ran { outcome: exited(true, b"{}", b"") },
            ShellAction::Decode { .. } => ShellEvent::Decoded,
            ShellAction::Succeed | ShellAction::Fail { .. } => {
                steps.push(action);
                break;
            }
        };
        steps.push(action);
    }
    assert_eq!(
        steps,
        vec![
            ShellAction::ReadRootMode,
            run_action(&["repair", "dns", "--json"]),
            ShellAction::Decode { document: b"{}".to_vec() },
            ShellAction::Succeed,
        ]
    );
}
