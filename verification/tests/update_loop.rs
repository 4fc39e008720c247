use codex_runtime_policy::identity::executable_identity_from_bytes;
use codex_runtime_policy::settings::DaemonSettings;
use codex_runtime_policy::update::restart_required;
use codex_runtime_policy::update::update_modes_for_identities;
use codex_runtime_policy::update::RestartMode;
use codex_runtime_policy::update::UpdateAction;
use codex_runtime_policy::update::UpdateEvent;
use codex_runtime_policy::update::UpdateLoopControl;
use codex_runtime_policy::update::UpdatePass;
use codex_runtime_policy::update::UpdaterRefreshMode;

#[test]
fn unchanged_updater_uses_version_based_restart() {
    assert_eq!(
        update_modes_for_identities(
            &executable_identity_from_bytes(b"same"),
            &executable_identity_from_bytes(b"same"),
        ),
        (RestartMode::IfVersionChanged, UpdaterRefreshMode::NoRefresh)
    );
}

#[test]
fn changed_updater_forces_refresh_even_when_version_may_match() {
    assert_eq!(
        update_modes_for_identities(
            &executable_identity_from_bytes(b"old"),
            &executable_identity_from_bytes(b"new"),
        ),
        (
            RestartMode::Always,
            UpdaterRefreshMode::ReexecIfManagedBinaryChanged,
        )
    );
}

#[test]
fn custom_binary_mode_stops_before_fetching_standalone_update() {
    let settings = DaemonSettings {
        remote_control_enabled: true,
        custom_codex_bin: Some("/tmp/daemon-test/custom-codex".to_string()),
    };
    let running_updater_identity = executable_identity_from_bytes(b"updater");
    let (mut pass, first) = UpdatePass::start(running_updater_identity);
    assert_eq!(first, UpdateAction::LoadSettings);
    let action = pass.step(UpdateEvent::SettingsLoaded { settings });
    assert_eq!(
        action,
        UpdateAction::Finish {
            control: UpdateLoopControl::Stop
        }
    );
    assert_eq!(pass.outcome(), Some(UpdateLoopControl::Stop));
}

#[test]
fn identities_of_different_lengths_differ() {
    let short = executable_identity_from_bytes(b"ab");
    let long = executable_identity_from_bytes(b"abc");
    assert!(!short.same_image(&long));
    assert!(short.same_image(&executable_identity_from_bytes(b"ab")));
    assert!(executable_identity_from_bytes(b"").same_image(&executable_identity_from_bytes(b"")));
}

fn managed_settings() -> DaemonSettings {
    DaemonSettings {
        remote_control_enabled: false,
        custom_codex_bin: None,
    }
}

#[test]
fn changed_binary_restarts_running_app_server_then_reexecs() {
    let (mut pass, _) = UpdatePass::start(executable_identity_from_bytes(b"v1"));
    assert_eq!(
        pass.step(UpdateEvent::SettingsLoaded {
            settings: managed_settings()
        }),
        UpdateAction::FetchStandaloneUpdate
    );
    assert_eq!(
        pass.step(UpdateEvent::FetchFinished { succeeded: true }),
        UpdateAction::ReadManagedBinary
    );
    assert_eq!(
        pass.step(UpdateEvent::ManagedBinaryRead {
            identity: executable_identity_from_bytes(b"v2")
        }),
        UpdateAction::QueryAppServer
    );
    assert_eq!(
        pass.step(UpdateEvent::AppServerStatus { running: true }),
        UpdateAction::RestartAppServer {
            mode: RestartMode::Always
        }
    );
    assert_eq!(pass.outcome(), None);
    assert_eq!(
        pass.step(UpdateEvent::RestartFinished { succeeded: true }),
        UpdateAction::ReexecUpdater
    );
    assert_eq!(
        pass.step(UpdateEvent::ReexecFailed),
        UpdateAction::Finish {
            control: UpdateLoopControl::Continue
        }
    );
}

#[test]
fn unchanged_binary_restarts_on_version_change_and_keeps_updater() {
    let (mut pass, _) = UpdatePass::start(executable_identity_from_bytes(b"v1"));
    pass.step(UpdateEvent::SettingsLoaded {
        settings: managed_settings(),
    });
    pass.step(UpdateEvent::FetchFinished { succeeded: true });
    pass.step(UpdateEvent::ManagedBinaryRead {
        identity: executable_identity_from_bytes(b"v1"),
    });
    assert_eq!(
        pass.step(UpdateEvent::AppServerStatus { running: true }),
        UpdateAction::RestartAppServer {
            mode: RestartMode::IfVersionChanged
        }
    );
    assert_eq!(
        pass.step(UpdateEvent::RestartFinished { succeeded: true }),
        UpdateAction::Finish {
            control: UpdateLoopControl::Continue
        }
    );
}

#[test]
fn changed_binary_without_app_server_reexecs_directly() {
    let (mut pass, _) = UpdatePass::start(executable_identity_from_bytes(b"v1"));
    pass.step(UpdateEvent::SettingsLoaded {
        settings: managed_settings(),
    });
    pass.step(UpdateEvent::FetchFinished { succeeded: true });
    pass.step(UpdateEvent::ManagedBinaryRead {
        identity: executable_identity_from_bytes(b"v2"),
    });
    assert_eq!(
        pass.step(UpdateEvent::AppServerStatus { running: false }),
        UpdateAction::ReexecUpdater
    );
}

#[test]
fn failed_restart_keeps_updater_image() {
    let (mut pass, _) = UpdatePass::start(executable_identity_from_bytes(b"v1"));
    pass.step(UpdateEvent::SettingsLoaded {
        settings: managed_settings(),
    });
    pass.step(UpdateEvent::FetchFinished { succeeded: true });
    pass.step(UpdateEvent::ManagedBinaryRead {
        identity: executable_identity_from_bytes(b"v2"),
    });
    pass.step(UpdateEvent::AppServerStatus { running: true });
    assert_eq!(
        pass.step(UpdateEvent::RestartFinished { succeeded: false }),
        UpdateAction::Finish {
            control: UpdateLoopControl::Continue
        }
    );
    assert_eq!(pass.outcome(), Some(UpdateLoopControl::Continue));
}

#[test]
fn failed_fetch_waits_for_next_pass() {
    let (mut pass, _) = UpdatePass::start(executable_identity_from_bytes(b"v1"));
    pass.step(UpdateEvent::SettingsLoaded {
        settings: managed_settings(),
    });
    assert_eq!(
        pass.step(UpdateEvent::FetchFinished { succeeded: false }),
        UpdateAction::Finish {
            control: UpdateLoopControl::Continue
        }
    );
}

#[test]
fn unreadable_managed_binary_waits_for_next_pass() {
    let (mut pass, _) = UpdatePass::start(executable_identity_from_bytes(b"v1"));
    pass.step(UpdateEvent::SettingsLoaded {
        settings: managed_settings(),
    });
    pass.step(UpdateEvent::FetchFinished { succeeded: true });
    assert_eq!(
        pass.step(UpdateEvent::ManagedBinaryUnreadable),
        UpdateAction::Finish {
            control: UpdateLoopControl::Continue
        }
    );
}

#[test]
fn termination_stops_a_running_pass_and_finished_pass_stays_finished() {
    let (mut pass, _) = UpdatePass::start(executable_identity_from_bytes(b"v1"));
    pass.step(UpdateEvent::SettingsLoaded {
        settings: managed_settings(),
    });
    assert_eq!(
        pass.step(UpdateEvent::TerminationRequested),
        UpdateAction::Finish {
            control: UpdateLoopControl::Stop
        }
    );
    assert_eq!(
        pass.step(UpdateEvent::FetchFinished { succeeded: true }),
        UpdateAction::Finish {
            control: UpdateLoopControl::Stop
        }
    );
}

#[test]
fn out_of_order_event_is_ignored() {
    let (mut pass, _) = UpdatePass::start(executable_identity_from_bytes(b"v1"));
    assert_eq!(
        pass.step(UpdateEvent::FetchFinished { succeeded: true }),
        UpdateAction::Wait
    );
    assert_eq!(
        pass.step(UpdateEvent::SettingsLoaded {
            settings: managed_settings()
        }),
        UpdateAction::FetchStandaloneUpdate
    );
}

#[test]
fn version_based_restart_only_replaces_other_versions() {
    assert!(restart_required(RestartMode::Always, "0.1.0", "0.1.0"));
    assert!(!restart_required(RestartMode::IfVersionChanged, "0.1.0", "0.1.0"));
    assert!(restart_required(RestartMode::IfVersionChanged, "0.1.0", "0.2.0"));
}
