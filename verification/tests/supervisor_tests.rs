use tabletdrivercleanup::criteria::UninstallMethod;
use tabletdrivercleanup::supervisor::{
    find_delegate, parse_command_line, race_outcome, registry_base_key, wait_poll_step,
    ProcessInfo, RaceEvent, SpawnOutcome, Supervisor, SupervisorOutcome, SupervisorState,
    WaitSignal, WaitStep, GRACE_PERIOD_MS, POLL_INTERVAL_MS,
};

fn proc(pid: u32, parent: u32, command_line: Option<&str>) -> ProcessInfo {
    ProcessInfo {
        process_id: pid,
        parent_process_id: parent,
        command_line: command_line.map(|c| c.to_string()),
    }
}

#[test]
fn plain_command_line_parses() {
    let parts = parse_command_line(&"C:\\Tablet\\unins000.exe".to_string()).unwrap();
    assert_eq!(parts.program, "C:\\Tablet\\unins000.exe");
    assert!(parts.args.is_empty());
}

#[test]
fn quoted_command_line_parses() {
    let parts =
        parse_command_line(&"\"C:\\Program Files\\Tablet\\uninstall.exe\" /SILENT /NORESTART"
            .to_string())
        .unwrap();
    assert_eq!(parts.program, "C:\\Program Files\\Tablet\\uninstall.exe");
    assert_eq!(parts.args, vec!["/SILENT".to_string(), "/NORESTART".to_string()]);
}

#[test]
fn program_token_ends_at_first_extension() {
    let parts = parse_command_line(&"C:\\a\\setup.exe repair.exe".to_string()).unwrap();
    assert_eq!(parts.program, "C:\\a\\setup.exe");
    assert_eq!(parts.args, vec!["repair.exe".to_string()]);
}

#[test]
fn command_line_without_extension_does_not_parse() {
    assert!(parse_command_line(&"no program here".to_string()).is_none());
    assert!(parse_command_line(&"".to_string()).is_none());
}

#[test]
fn delegate_scan_takes_first_matching_child() {
    let table = vec![
        proc(7, 1, Some("C:\\Windows\\explorer.exe")),
        proc(8, 100, Some("other process")),
        proc(9, 100, Some("C:\\Tablet\\_iu14D2N.tmp /secondphase")),
        proc(10, 100, Some("C:\\Tablet\\another.exe")),
    ];
    assert_eq!(find_delegate(&table, 100, &"C:\\Tablet".to_string()), Some(9));
    assert_eq!(find_delegate(&table, 100, &"C:\\Elsewhere".to_string()), None);
    assert_eq!(find_delegate(&table, 55, &"C:\\Tablet".to_string()), None);
}

#[test]
fn delegate_scan_ignores_children_without_command_lines() {
    let table = vec![proc(9, 100, None)];
    assert_eq!(find_delegate(&table, 100, &"C:\\Tablet".to_string()), None);
}

#[test]
fn missing_binary_counts_as_already_uninstalled() {
    let (mut sup, _parts) =
        Supervisor::new(UninstallMethod::Normal, &"C:\\Tablet\\unins000.exe".to_string())
            .unwrap();
    sup.on_spawn(SpawnOutcome::ProgramNotFound);
    assert_eq!(sup.outcome(), SupervisorOutcome::AlreadyUninstalled);
}

#[test]
fn normal_method_waits_on_the_main_process_alone() {
    let (mut sup, _parts) =
        Supervisor::new(UninstallMethod::Normal, &"C:\\Tablet\\unins000.exe".to_string())
            .unwrap();
    sup.on_spawn(SpawnOutcome::Spawned(321));
    assert_eq!(sup.state, SupervisorState::AwaitingMain { main_pid: 321 });
    sup.on_main_exit(true);
    assert_eq!(sup.outcome(), SupervisorOutcome::Success);
}

#[test]
fn deferred_without_delegate_completes_on_main_exit() {
    // The main process exits with no matching child found: the supervisor
    // completes successfully once the main process exits, without waiting
    // on anything else.
    let (mut sup, parts) =
        Supervisor::new(UninstallMethod::Deferred, &"C:\\Tablet\\unins000.exe".to_string())
            .unwrap();
    assert_eq!(parts.program, "C:\\Tablet\\unins000.exe");
    assert_eq!(sup.target_dir, "C:\\Tablet");
    sup.on_spawn(SpawnOutcome::Spawned(100));
    assert_eq!(sup.state, SupervisorState::GraceWait { main_pid: 100 });
    sup.on_grace_elapsed();
    assert_eq!(sup.state, SupervisorState::Scanning { main_pid: 100 });
    sup.on_process_snapshot(&vec![proc(7, 1, Some("C:\\Windows\\explorer.exe"))]);
    assert_eq!(sup.state, SupervisorState::AwaitingMain { main_pid: 100 });
    sup.on_main_exit(true);
    assert_eq!(sup.outcome(), SupervisorOutcome::Success);
}

#[test]
fn deferred_with_delegate_requires_both_exits() {
    let (mut sup, _parts) =
        Supervisor::new(UninstallMethod::Deferred, &"C:\\Tablet\\unins000.exe".to_string())
            .unwrap();
    sup.on_spawn(SpawnOutcome::Spawned(100));
    sup.on_grace_elapsed();
    sup.on_process_snapshot(&vec![proc(9, 100, Some("C:\\Tablet\\_iu14D2N.tmp /secondphase"))]);
    assert_eq!(sup.state, SupervisorState::AwaitingBoth { main_pid: 100, delegate_pid: 9 });
    sup.on_main_exit(true);
    assert_eq!(sup.state, SupervisorState::AwaitingDelegate { delegate_pid: 9 });
    sup.on_delegate_exit(true);
    assert_eq!(sup.outcome(), SupervisorOutcome::Success);
}

#[test]
fn a_failed_wait_fails_the_whole_action() {
    let (mut sup, _parts) =
        Supervisor::new(UninstallMethod::Deferred, &"C:\\Tablet\\unins000.exe".to_string())
            .unwrap();
    sup.on_spawn(SpawnOutcome::Spawned(100));
    sup.on_grace_elapsed();
    sup.on_process_snapshot(&vec![proc(9, 100, Some("C:\\Tablet\\_iu14D2N.tmp"))]);
    sup.on_delegate_exit(false);
    assert_eq!(sup.outcome(), SupervisorOutcome::Failed);
}

#[test]
fn launch_errors_fail_the_action() {
    let (mut sup, _parts) =
        Supervisor::new(UninstallMethod::Normal, &"C:\\Tablet\\unins000.exe".to_string())
            .unwrap();
    sup.on_spawn(SpawnOutcome::LaunchError);
    assert_eq!(sup.outcome(), SupervisorOutcome::Failed);
}

#[test]
fn unparseable_command_line_fails_before_launch() {
    assert!(Supervisor::new(UninstallMethod::Normal, &"not a command".to_string()).is_none());
}

#[test]
fn user_keypress_wins_the_race_as_success() {
    assert_eq!(race_outcome(RaceEvent::UserKeyPressed), SupervisorOutcome::Success);
    assert_eq!(
        race_outcome(RaceEvent::ActionCompleted(SupervisorOutcome::Failed)),
        SupervisorOutcome::Failed
    );
    assert_eq!(
        race_outcome(RaceEvent::ActionCompleted(SupervisorOutcome::AlreadyUninstalled)),
        SupervisorOutcome::AlreadyUninstalled
    );
}

#[test]
fn wait_polling_observes_cancellation_between_polls() {
    assert_eq!(wait_poll_step(WaitSignal::Completed, false), WaitStep::Done);
    assert_eq!(wait_poll_step(WaitSignal::Abandoned, true), WaitStep::Done);
    assert_eq!(wait_poll_step(WaitSignal::StillRunning, false), WaitStep::Retry);
    assert_eq!(wait_poll_step(WaitSignal::StillRunning, true), WaitStep::CancelledTimeout);
    assert_eq!(wait_poll_step(WaitSignal::WaitFailed, false), WaitStep::Failed);
}

#[test]
fn registry_base_keys() {
    assert_eq!(
        registry_base_key(false),
        "SOFTWARE\\Microsoft\\Windows\\CurrentVersion\\Uninstall"
    );
    assert_eq!(
        registry_base_key(true),
        "SOFTWARE\\WOW6432Node\\Microsoft\\Windows\\CurrentVersion\\Uninstall"
    );
}

#[test]
fn timing_constants() {
    assert_eq!(GRACE_PERIOD_MS, 500);
    assert_eq!(POLL_INTERVAL_MS, 20);
}
