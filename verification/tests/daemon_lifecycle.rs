use codex_runtime_policy::lifecycle::plan_start;
use codex_runtime_policy::lifecycle::stop_step;
use codex_runtime_policy::lifecycle::Daemon;
use codex_runtime_policy::lifecycle::StartAction;
use codex_runtime_policy::lifecycle::StopAction;
use codex_runtime_policy::lifecycle::StopOutcome;
use codex_runtime_policy::lifecycle::StopPhase;
use codex_runtime_policy::settings::plan_bootstrap;
use codex_runtime_policy::settings::remote_control_entry;
use codex_runtime_policy::settings::set_remote_control;
use codex_runtime_policy::settings::BinarySelection;
use codex_runtime_policy::settings::BootstrapError;
use codex_runtime_policy::settings::DaemonSettings;
use codex_runtime_policy::settings::RemoteControlEntry;

#[test]
fn daemon_state_lives_under_codex_home() {
    let daemon = Daemon::for_codex_home("/home/dev/.codex");
    assert_eq!(
        daemon.socket_path,
        "/home/dev/.codex/app-server-daemon/app-server-control.sock"
    );
    assert_eq!(daemon.pid_file, "/home/dev/.codex/app-server-daemon/app-server.pid");
    assert_eq!(
        daemon.update_pid_file,
        "/home/dev/.codex/app-server-daemon/app-server-updater.pid"
    );
    assert_eq!(
        daemon.operation_lock_file,
        "/home/dev/.codex/app-server-daemon/daemon.lock"
    );
    assert_eq!(
        daemon.settings_file,
        "/home/dev/.codex/app-server-daemon/settings.json"
    );
    assert_eq!(
        daemon.managed_codex_bin,
        "/home/dev/.codex/packages/standalone/current/codex"
    );
}

#[test]
fn new_settings_use_the_managed_install() {
    let settings = DaemonSettings::new();
    assert!(!settings.remote_control_enabled);
    assert!(settings.uses_standalone_updater());
    assert_eq!(settings.resolve_codex_bin("/managed/codex"), "/managed/codex");
}

#[test]
fn custom_binary_is_launched_and_disables_updater() {
    let settings = DaemonSettings {
        remote_control_enabled: false,
        custom_codex_bin: Some("/opt/codex".to_string()),
    };
    assert!(!settings.uses_standalone_updater());
    assert_eq!(settings.resolve_codex_bin("/managed/codex"), "/opt/codex");
}

#[test]
fn bootstrap_with_custom_binary_persists_it_without_updater() {
    let plan = plan_bootstrap(
        DaemonSettings::new(),
        true,
        BinarySelection::Custom("/absolute/path/to/codex".to_string()),
        false,
    )
    .ok()
    .expect("absolute custom binary is accepted");
    assert!(plan.settings.remote_control_enabled);
    assert_eq!(
        plan.settings.custom_codex_bin,
        Some("/absolute/path/to/codex".to_string())
    );
    assert!(!plan.launch_updater);
}

#[test]
fn bootstrap_rejects_relative_custom_binary() {
    let err = plan_bootstrap(
        DaemonSettings::new(),
        true,
        BinarySelection::Custom("bin/codex".to_string()),
        true,
    )
    .err()
    .expect("relative path is refused");
    assert_eq!(err, BootstrapError::RelativeCodexBin);
}

#[test]
fn bootstrap_managed_clears_custom_binary_and_launches_updater() {
    let current = DaemonSettings {
        remote_control_enabled: true,
        custom_codex_bin: Some("/opt/codex".to_string()),
    };
    let plan = plan_bootstrap(current, false, BinarySelection::Managed, true)
        .ok()
        .expect("managed install is present");
    assert_eq!(plan.settings.custom_codex_bin, None);
    assert!(plan.settings.remote_control_enabled);
    assert!(plan.launch_updater);
}

#[test]
fn bootstrap_requires_the_managed_install() {
    let err = plan_bootstrap(DaemonSettings::new(), true, BinarySelection::Unchanged, false)
        .err()
        .expect("managed install is missing");
    assert_eq!(err, BootstrapError::ManagedInstallMissing);
}

#[test]
fn plain_bootstrap_keeps_persisted_custom_binary() {
    let current = DaemonSettings {
        remote_control_enabled: false,
        custom_codex_bin: Some("/opt/codex".to_string()),
    };
    let plan = plan_bootstrap(current, false, BinarySelection::Unchanged, false)
        .ok()
        .expect("custom binary needs no managed install");
    assert_eq!(plan.settings.custom_codex_bin, Some("/opt/codex".to_string()));
    assert!(!plan.settings.remote_control_enabled);
    assert!(!plan.launch_updater);
}

#[test]
fn remote_control_toggle_restarts_only_a_running_app_server() {
    let change = set_remote_control(DaemonSettings::new(), true, true);
    assert!(change.settings.remote_control_enabled);
    assert!(change.restart_app_server);
    let change = set_remote_control(change.settings, false, false);
    assert!(!change.settings.remote_control_enabled);
    assert!(!change.restart_app_server);
}

#[test]
fn remote_control_entry_bootstraps_only_without_updater() {
    assert_eq!(
        remote_control_entry(false),
        RemoteControlEntry::BootstrapWithRemoteControl
    );
    assert_eq!(remote_control_entry(true), RemoteControlEntry::EnableAndStart);
}

#[test]
fn stop_escalates_once_after_grace_window() {
    let (phase, action) = stop_step(StopPhase::NotStarted, true);
    assert_eq!(action, StopAction::SendTermination);
    let (phase, action) = stop_step(phase, true);
    assert_eq!(action, StopAction::SendTermination);
    let (phase, action) = stop_step(phase, false);
    assert_eq!(
        action,
        StopAction::Report {
            outcome: StopOutcome::Stopped
        }
    );
    assert_eq!(
        phase,
        StopPhase::Done {
            outcome: StopOutcome::Stopped
        }
    );
}

#[test]
fn stop_of_graceful_process_sends_one_signal() {
    let (phase, action) = stop_step(StopPhase::NotStarted, true);
    assert_eq!(action, StopAction::SendTermination);
    let (_, action) = stop_step(phase, false);
    assert_eq!(
        action,
        StopAction::Report {
            outcome: StopOutcome::Stopped
        }
    );
}

#[test]
fn stop_without_process_reports_not_running() {
    let (_, action) = stop_step(StopPhase::NotStarted, false);
    assert_eq!(
        action,
        StopAction::Report {
            outcome: StopOutcome::NotRunning
        }
    );
}

#[test]
fn stop_reports_process_that_outlives_second_signal() {
    let (phase, _) = stop_step(StopPhase::NotStarted, true);
    let (phase, _) = stop_step(phase, true);
    let (_, action) = stop_step(phase, true);
    assert_eq!(
        action,
        StopAction::Report {
            outcome: StopOutcome::StillRunning
        }
    );
}

#[test]
fn start_launches_only_when_nothing_runs() {
    assert_eq!(plan_start(false), StartAction::Launch);
    assert_eq!(plan_start(true), StartAction::AlreadyRunning);
}
