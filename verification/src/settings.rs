use vstd::prelude::*;

verus! {

/// Launch settings that the daemon persists in its `settings.json`.
pub struct DaemonSettings {
    /// Whether app-server is launched with remote control enabled.
    pub remote_control_enabled: bool,
    /// An explicit, user-managed codex binary; `None` selects the standalone
    /// managed install.
    pub custom_codex_bin: Option<String>,
}

/// A path is absolute when it starts at the file-system root.
pub open spec fn is_absolute_path(path: Seq<char>) -> bool {
    path.len() > 0 && path[0] == '/'
}

/// The binary that lifecycle commands launch: the persisted custom binary if
/// there is one, else the standalone managed binary.
pub open spec fn resolved_codex_bin(custom: Option<String>, managed: Seq<char>) -> Seq<char> {
    match custom {
        Some(path) => path@,
        None => managed,
    }
}

impl DaemonSettings {
    /// Settings of a daemon that was never configured: remote control off, the
    /// managed standalone binary.
    pub fn new() -> (settings: Self)
        ensures
            !settings.remote_control_enabled,
            settings.custom_codex_bin is None,
    {
        DaemonSettings { remote_control_enabled: false, custom_codex_bin: None }
    }

    /// The detached standalone updater runs only for the managed install.
    pub fn uses_standalone_updater(&self) -> (uses: bool)
        ensures
            uses == (self.custom_codex_bin is None),
    {
        self.custom_codex_bin.is_none()
    }

    /// The binary path that `start`, `restart` and `bootstrap` launch.
    pub fn resolve_codex_bin(&self, managed_codex_bin: &str) -> (bin: String)
        ensures
            bin@ == resolved_codex_bin(self.custom_codex_bin, managed_codex_bin@),
            self.custom_codex_bin matches Some(path) ==> bin@ == path@,
            self.custom_codex_bin is None ==> bin@ == managed_codex_bin@,
    {
        match &self.custom_codex_bin {
            Some(path) => path.clone(),
            None => managed_codex_bin.to_owned(),
        }
    }
}

/// Which binary `bootstrap` selects.
pub enum BinarySelection {
    /// Keep the persisted selection (plain `bootstrap`).
    Unchanged,
    /// Pin an explicit binary (`bootstrap --codex-bin PATH`).
    Custom(String),
    /// Return to the standalone managed install (`bootstrap --managed`).
    Managed,
}

/// Why `bootstrap` refused to run.
#[derive(Debug, Clone, Copy, PartialEq, Eq, Structural)]
pub enum BootstrapError {
    /// `--codex-bin` was given a relative path.
    RelativeCodexBin,
    /// The managed install is selected but `install.sh` never ran.
    ManagedInstallMissing,
}

/// What `bootstrap` persists and whether it launches the detached updater.
pub struct BootstrapPlan {
    pub settings: DaemonSettings,
    pub launch_updater: bool,
}

/// The settings `bootstrap` persists, before the install check.
pub open spec fn bootstrapped_settings(
    current: DaemonSettings,
    remote_control: bool,
    selection: BinarySelection,
) -> DaemonSettings {
    DaemonSettings {
        remote_control_enabled: remote_control || current.remote_control_enabled,
        custom_codex_bin: match selection {
            BinarySelection::Unchanged => current.custom_codex_bin,
            BinarySelection::Custom(path) => Some(path),
            BinarySelection::Managed => None,
        },
    }
}

/// Plans `bootstrap`: `--remote-control` turns remote control on (without it
/// the persisted choice stays), the binary selection is applied, a custom
/// binary must be an absolute path, the managed install must be present when
/// it is selected, and the standalone updater is launched only for the managed
/// install.
pub fn plan_bootstrap(
    current: DaemonSettings,
    remote_control: bool,
    selection: BinarySelection,
    managed_install_present: bool,
) -> (plan: Result<BootstrapPlan, BootstrapError>)
    ensures
        match plan {
            Ok(plan) => {
                &&& !(selection matches BinarySelection::Custom(path) && !is_absolute_path(path@))
                &&& (bootstrapped_settings(current, remote_control, selection).custom_codex_bin is Some
                    || managed_install_present)
                &&& plan.settings == bootstrapped_settings(current, remote_control, selection)
                &&& plan.launch_updater == (plan.settings.custom_codex_bin is None)
                &&& remote_control ==> plan.settings.remote_control_enabled
                &&& current.remote_control_enabled ==> plan.settings.remote_control_enabled
                &&& plan.settings.remote_control_enabled ==> (remote_control
                    || current.remote_control_enabled)
            },
            Err(BootstrapError::RelativeCodexBin) => selection matches BinarySelection::Custom(path)
                && !is_absolute_path(path@),
            Err(BootstrapError::ManagedInstallMissing) => {
                &&& !(selection matches BinarySelection::Custom(path) && !is_absolute_path(path@))
                &&& bootstrapped_settings(current, remote_control, selection).custom_codex_bin is None
                &&& !managed_install_present
            },
        },
{
    let custom_codex_bin = match selection {
        BinarySelection::Unchanged => current.custom_codex_bin,
        BinarySelection::Custom(path) => {
            if !starts_at_root(&path) {
                return Err(BootstrapError::RelativeCodexBin);
            }
            Some(path)
        },
        BinarySelection::Managed => None,
    };
    if custom_codex_bin.is_none() && !managed_install_present {
        return Err(BootstrapError::ManagedInstallMissing);
    }
    let launch_updater = custom_codex_bin.is_none();
    let settings = DaemonSettings {
        remote_control_enabled: remote_control || current.remote_control_enabled,
        custom_codex_bin,
    };
    Ok(BootstrapPlan { settings, launch_updater })
}

fn starts_at_root(path: &String) -> (absolute: bool)
    ensures
        absolute == is_absolute_path(path@),
{
    let s = path.as_str();
    if s.unicode_len() == 0 {
        false
    } else {
        s.get_char(0) == '/'
    }
}

/// A custom binary is accepted only as a path from the file-system root.
pub proof fn lemma_custom_binary_must_start_at_root(path: Seq<char>)
    ensures
        is_absolute_path(path) <==> (path.len() > 0 && path[0] == '/'),
        is_absolute_path("/absolute/path/to/codex"@),
        !is_absolute_path("bin/codex"@),
        !is_absolute_path(Seq::<char>::empty()),
{
    reveal_strlit("/absolute/path/to/codex");
    reveal_strlit("bin/codex");
}

/// `--remote-control` only ever turns remote control on: with the flag it is
/// on, without it the persisted choice stays; and the binary selection
/// decides the persisted binary: a custom path is pinned, `--managed` clears
/// it, and plain `bootstrap` keeps what was there.
pub proof fn lemma_bootstrap_settings(current: DaemonSettings, remote_control: bool, selection: BinarySelection)
    ensures
        remote_control ==> bootstrapped_settings(current, remote_control, selection).remote_control_enabled,
        !remote_control ==> bootstrapped_settings(current, remote_control, selection).remote_control_enabled
            == current.remote_control_enabled,
        selection matches BinarySelection::Custom(path) ==> bootstrapped_settings(
            current,
            remote_control,
            selection,
        ).custom_codex_bin == Some(path),
        selection is Managed ==> bootstrapped_settings(current, remote_control, selection).custom_codex_bin is None,
        selection is Unchanged ==> bootstrapped_settings(current, remote_control, selection).custom_codex_bin
            == current.custom_codex_bin,
{
}

/// The persisted settings after `enable-remote-control` or
/// `disable-remote-control`, and whether the running app-server is restarted
/// so that the change takes effect at once.
pub struct RemoteControlChange {
    pub settings: DaemonSettings,
    pub restart_app_server: bool,
}

/// Plans `enable-remote-control` (`enabled`) or `disable-remote-control`: the
/// setting is persisted for future starts, the binary selection is kept, and a
/// running managed app-server is restarted.
pub fn set_remote_control(current: DaemonSettings, enabled: bool, app_server_running: bool) -> (change:
    RemoteControlChange)
    ensures
        change.settings.remote_control_enabled == enabled,
        change.settings.custom_codex_bin == current.custom_codex_bin,
        change.restart_app_server == app_server_running,
{
    RemoteControlChange {
        settings: DaemonSettings {
            remote_control_enabled: enabled,
            custom_codex_bin: current.custom_codex_bin,
        },
        restart_app_server: app_server_running,
    }
}

/// What top-level `codex remote-control` does.
#[derive(Debug, Clone, Copy, PartialEq, Eq, Structural)]
pub enum RemoteControlEntry {
    /// Run `bootstrap --remote-control`.
    BootstrapWithRemoteControl,
    /// Run `enable-remote-control`, then `start`.
    EnableAndStart,
}

/// `codex remote-control` bootstraps when the updater loop is not running, and
/// otherwise enables remote control and starts the daemon normally.
pub fn remote_control_entry(updater_running: bool) -> (entry: RemoteControlEntry)
    ensures
        entry == (if updater_running {
            RemoteControlEntry::EnableAndStart
        } else {
            RemoteControlEntry::BootstrapWithRemoteControl
        }),
{
    if updater_running {
        RemoteControlEntry::EnableAndStart
    } else {
        RemoteControlEntry::BootstrapWithRemoteControl
    }
}

} // verus!
