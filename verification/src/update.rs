use vstd::prelude::*;

use crate::identity::ExecutableIdentity;
use crate::settings::DaemonSettings;

verus! {

/// How app-server is restarted after the updater fetched a binary.
#[derive(Debug, Clone, Copy, PartialEq, Eq, Structural)]
pub enum RestartMode {
    /// Restart whatever version app-server reports.
    Always,
    /// Restart only when app-server's version differs from the binary's.
    IfVersionChanged,
}

/// Whether the updater replaces its own process image after a pass.
#[derive(Debug, Clone, Copy, PartialEq, Eq, Structural)]
pub enum UpdaterRefreshMode {
    /// Keep running the current updater image.
    NoRefresh,
    /// Re-execute the updater from the managed binary, which differs from the
    /// running image.
    ReexecIfManagedBinaryChanged,
}

/// What the updater loop does after one pass.
#[derive(Debug, Clone, Copy, PartialEq, Eq, Structural)]
pub enum UpdateLoopControl {
    /// Wait for the next scheduled pass.
    Continue,
    /// Leave the loop for good.
    Stop,
}

/// The restart and refresh modes for a pass, given whether the managed binary
/// is the very image the updater runs from.
pub open spec fn spec_update_modes(unchanged: bool) -> (RestartMode, UpdaterRefreshMode) {
    if unchanged {
        (RestartMode::IfVersionChanged, UpdaterRefreshMode::NoRefresh)
    } else {
        (RestartMode::Always, UpdaterRefreshMode::ReexecIfManagedBinaryChanged)
    }
}

/// Chooses how to treat app-server and the updater itself after a fetch. When
/// the managed binary still is the updater's own image, app-server is only
/// restarted on a version change and the updater keeps running; otherwise
/// app-server is always restarted (its version may match although the binary
/// changed) and the updater re-executes itself afterwards.
pub fn update_modes_for_identities(
    running_updater: &ExecutableIdentity,
    managed_binary: &ExecutableIdentity,
) -> (modes: (RestartMode, UpdaterRefreshMode))
    ensures
        modes == spec_update_modes(running_updater@ == managed_binary@),
        (modes.0 == RestartMode::IfVersionChanged) <==> (running_updater@ == managed_binary@),
        (modes.1 == UpdaterRefreshMode::NoRefresh) <==> (running_updater@ == managed_binary@),
{
    if running_updater.same_image(managed_binary) {
        (RestartMode::IfVersionChanged, UpdaterRefreshMode::NoRefresh)
    } else {
        (RestartMode::Always, UpdaterRefreshMode::ReexecIfManagedBinaryChanged)
    }
}

/// Whether a restart in `mode` actually replaces app-server, given the version
/// it reports and the version of the binary it would be restarted with.
pub open spec fn spec_restart_required(
    mode: RestartMode,
    app_server_version: Seq<char>,
    binary_version: Seq<char>,
) -> bool {
    match mode {
        RestartMode::Always => true,
        RestartMode::IfVersionChanged => app_server_version != binary_version,
    }
}

/// Decides whether a restart in `mode` replaces the running app-server.
pub fn restart_required(mode: RestartMode, app_server_version: &str, binary_version: &str) -> (required: bool)
    ensures
        required == spec_restart_required(mode, app_server_version@, binary_version@),
        mode == RestartMode::Always ==> required,
        mode == RestartMode::IfVersionChanged ==> (required <==> app_server_version@ != binary_version@),
{
    match mode {
        RestartMode::Always => true,
        RestartMode::IfVersionChanged => {
            let running = app_server_version.to_owned();
            let fetched = binary_version.to_owned();
            !(running == fetched)
        },
    }
}

/// Where one pass of the updater loop stands.
#[derive(Debug, Clone, Copy, PartialEq, Eq, Structural)]
pub enum UpdatePhase {
    /// Waiting for the persisted daemon settings.
    LoadingSettings,
    /// Waiting for the standalone install script to finish.
    Fetching,
    /// Waiting for the contents of the managed binary.
    ReadingManagedBinary,
    /// Waiting to learn whether app-server is running.
    CheckingAppServer { restart: RestartMode, refresh: UpdaterRefreshMode },
    /// Waiting for app-server to come back on the refreshed binary.
    RestartingAppServer { refresh: UpdaterRefreshMode },
    /// Waiting for the updater's own re-execution, which only reports failure.
    ReexecutingUpdater,
    /// The pass is over.
    Finished { control: UpdateLoopControl },
}

/// What the runner of a pass observed.
pub enum UpdateEvent {
    SettingsLoaded { settings: DaemonSettings },
    FetchFinished { succeeded: bool },
    ManagedBinaryRead { identity: ExecutableIdentity },
    ManagedBinaryUnreadable,
    AppServerStatus { running: bool },
    RestartFinished { succeeded: bool },
    ReexecFailed,
    TerminationRequested,
}

/// What the runner of a pass does next.
#[derive(Debug, Clone, Copy, PartialEq, Eq, Structural)]
pub enum UpdateAction {
    /// Read the persisted daemon settings.
    LoadSettings,
    /// Run the standalone install script.
    FetchStandaloneUpdate,
    /// Read the managed binary's contents.
    ReadManagedBinary,
    /// Ask whether app-server is running.
    QueryAppServer,
    /// Restart app-server on the managed binary in this mode.
    RestartAppServer { mode: RestartMode },
    /// Replace the updater's process image with the managed binary.
    ReexecUpdater,
    /// Nothing: the event did not belong to the current phase.
    Wait,
    /// The pass is over; the loop goes on as `control` says.
    Finish { control: UpdateLoopControl },
}

/// A pass that ended with `control`.
pub open spec fn finished(control: UpdateLoopControl) -> (UpdatePhase, UpdateAction) {
    (UpdatePhase::Finished { control }, UpdateAction::Finish { control })
}

/// The step after app-server was refreshed, or found not running.
pub open spec fn after_app_server(refresh: UpdaterRefreshMode) -> (UpdatePhase, UpdateAction) {
    match refresh {
        UpdaterRefreshMode::NoRefresh => finished(UpdateLoopControl::Continue),
        UpdaterRefreshMode::ReexecIfManagedBinaryChanged => (
            UpdatePhase::ReexecutingUpdater,
            UpdateAction::ReexecUpdater,
        ),
    }
}

/// One step of an updater pass that runs from the image `running_updater`.
pub open spec fn spec_update_step(phase: UpdatePhase, running_updater: Seq<u8>, event: UpdateEvent) -> (
    UpdatePhase,
    UpdateAction,
) {
    match phase {
        UpdatePhase::Finished { control } => finished(control),
        _ => match event {
            UpdateEvent::TerminationRequested => finished(UpdateLoopControl::Stop),
            UpdateEvent::SettingsLoaded { settings } => if phase == UpdatePhase::LoadingSettings {
                if settings.custom_codex_bin is Some {
                    finished(UpdateLoopControl::Stop)
                } else {
                    (UpdatePhase::Fetching, UpdateAction::FetchStandaloneUpdate)
                }
            } else {
                (phase, UpdateAction::Wait)
            },
            UpdateEvent::FetchFinished { succeeded } => if phase == UpdatePhase::Fetching {
                if succeeded {
                    (UpdatePhase::ReadingManagedBinary, UpdateAction::ReadManagedBinary)
                } else {
                    finished(UpdateLoopControl::Continue)
                }
            } else {
                (phase, UpdateAction::Wait)
            },
            UpdateEvent::ManagedBinaryRead { identity } => if phase
                == UpdatePhase::ReadingManagedBinary {
                let modes = spec_update_modes(running_updater == identity@);
                (
                    UpdatePhase::CheckingAppServer { restart: modes.0, refresh: modes.1 },
                    UpdateAction::QueryAppServer,
                )
            } else {
                (phase, UpdateAction::Wait)
            },
            UpdateEvent::ManagedBinaryUnreadable => if phase == UpdatePhase::ReadingManagedBinary {
                finished(UpdateLoopControl::Continue)
            } else {
                (phase, UpdateAction::Wait)
            },
            UpdateEvent::AppServerStatus { running } => match phase {
                UpdatePhase::CheckingAppServer { restart, refresh } => if running {
                    (
                        UpdatePhase::RestartingAppServer { refresh },
                        UpdateAction::RestartAppServer { mode: restart },
                    )
                } else {
                    after_app_server(refresh)
                },
                _ => (phase, UpdateAction::Wait),
            },
            UpdateEvent::RestartFinished { succeeded } => match phase {
                UpdatePhase::RestartingAppServer { refresh } => if succeeded {
                    after_app_server(refresh)
                } else {
                    finished(UpdateLoopControl::Continue)
                },
                _ => (phase, UpdateAction::Wait),
            },
            UpdateEvent::ReexecFailed => if phase == UpdatePhase::ReexecutingUpdater {
                finished(UpdateLoopControl::Continue)
            } else {
                (phase, UpdateAction::Wait)
            },
        },
    }
}

/// One pass of the standalone updater loop, driven by a runner that performs
/// each action and reports what it observed.
pub struct UpdatePass {
    running_updater: ExecutableIdentity,
    phase: UpdatePhase,
}

impl UpdatePass {
    /// The image the updater runs from.
    pub closed spec fn running_updater(&self) -> Seq<u8> {
        self.running_updater@
    }

    /// Where the pass stands.
    pub closed spec fn phase(&self) -> UpdatePhase {
        self.phase
    }

    /// Starts a pass for an updater running from `running_updater`; the first
    /// action is to load the settings.
    pub fn start(running_updater: ExecutableIdentity) -> (started: (UpdatePass, UpdateAction))
        ensures
            started.0.running_updater() == running_updater@,
            started.0.phase() == UpdatePhase::LoadingSettings,
            started.1 == UpdateAction::LoadSettings,
    {
        (UpdatePass { running_updater, phase: UpdatePhase::LoadingSettings }, UpdateAction::LoadSettings)
    }

    /// Feeds one observation to the pass and returns the next action.
    pub fn step(&mut self, event: UpdateEvent) -> (action: UpdateAction)
        ensures
            final(self).running_updater() == old(self).running_updater(),
            (final(self).phase(), action) == spec_update_step(
                old(self).phase(),
                old(self).running_updater(),
                event,
            ),
    {
        let (phase, action) = match self.phase {
            UpdatePhase::Finished { control } => (
                UpdatePhase::Finished { control },
                UpdateAction::Finish { control },
            ),
            current => match event {
                UpdateEvent::TerminationRequested => (
                    UpdatePhase::Finished { control: UpdateLoopControl::Stop },
                    UpdateAction::Finish { control: UpdateLoopControl::Stop },
                ),
                UpdateEvent::SettingsLoaded { settings } => match current {
                    UpdatePhase::LoadingSettings => if settings.uses_standalone_updater() {
                        (UpdatePhase::Fetching, UpdateAction::FetchStandaloneUpdate)
                    } else {
                        (
                            UpdatePhase::Finished { control: UpdateLoopControl::Stop },
                            UpdateAction::Finish { control: UpdateLoopControl::Stop },
                        )
                    },
                    _ => (current, UpdateAction::Wait),
                },
                UpdateEvent::FetchFinished { succeeded } => match current {
                    UpdatePhase::Fetching => if succeeded {
                        (UpdatePhase::ReadingManagedBinary, UpdateAction::ReadManagedBinary)
                    } else {
                        (
                            UpdatePhase::Finished { control: UpdateLoopControl::Continue },
                            UpdateAction::Finish { control: UpdateLoopControl::Continue },
                        )
                    },
                    _ => (current, UpdateAction::Wait),
                },
                UpdateEvent::ManagedBinaryRead { identity } => match current {
                    UpdatePhase::ReadingManagedBinary => {
                        let (restart, refresh) = update_modes_for_identities(
                            &self.running_updater,
                            &identity,
                        );
                        (
                            UpdatePhase::CheckingAppServer { restart, refresh },
                            UpdateAction::QueryAppServer,
                        )
                    },
                    _ => (current, UpdateAction::Wait),
                },
                UpdateEvent::ManagedBinaryUnreadable => match current {
                    UpdatePhase::ReadingManagedBinary => (
                        UpdatePhase::Finished { control: UpdateLoopControl::Continue },
                        UpdateAction::Finish { control: UpdateLoopControl::Continue },
                    ),
                    _ => (current, UpdateAction::Wait),
                },
                UpdateEvent::AppServerStatus { running } => match current {
                    UpdatePhase::CheckingAppServer { restart, refresh } => if running {
                        (
                            UpdatePhase::RestartingAppServer { refresh },
                            UpdateAction::RestartAppServer { mode: restart },
                        )
                    } else {
                        Self::after_app_server(refresh)
                    },
                    _ => (current, UpdateAction::Wait),
                },
                UpdateEvent::RestartFinished { succeeded } => match current {
                    UpdatePhase::RestartingAppServer { refresh } => if succeeded {
                        Self::after_app_server(refresh)
                    } else {
                        (
                            UpdatePhase::Finished { control: UpdateLoopControl::Continue },
                            UpdateAction::Finish { control: UpdateLoopControl::Continue },
                        )
                    },
                    _ => (current, UpdateAction::Wait),
                },
                UpdateEvent::ReexecFailed => match current {
                    UpdatePhase::ReexecutingUpdater => (
                        UpdatePhase::Finished { control: UpdateLoopControl::Continue },
                        UpdateAction::Finish { control: UpdateLoopControl::Continue },
                    ),
                    _ => (current, UpdateAction::Wait),
                },
            },
        };
        self.phase = phase;
        action
    }

    fn after_app_server(refresh: UpdaterRefreshMode) -> (next: (UpdatePhase, UpdateAction))
        ensures
            next == after_app_server(refresh),
    {
        match refresh {
            UpdaterRefreshMode::NoRefresh => (
                UpdatePhase::Finished { control: UpdateLoopControl::Continue },
                UpdateAction::Finish { control: UpdateLoopControl::Continue },
            ),
            UpdaterRefreshMode::ReexecIfManagedBinaryChanged => (
                UpdatePhase::ReexecutingUpdater,
                UpdateAction::ReexecUpdater,
            ),
        }
    }

    /// How the loop goes on, once the pass is over.
    pub fn outcome(&self) -> (control: Option<UpdateLoopControl>)
        ensures
            control == match self.phase() {
                UpdatePhase::Finished { control } => Some(control),
                _ => None::<UpdateLoopControl>,
            },
    {
        match self.phase {
            UpdatePhase::Finished { control } => Some(control),
            _ => None,
        }
    }
}

/// The actions a pass issues, from `phase` on, for the observations `events`.
pub open spec fn spec_pass_actions(phase: UpdatePhase, running_updater: Seq<u8>, events: Seq<UpdateEvent>) -> Seq<
    UpdateAction,
>
    decreases events.len(),
{
    if events.len() == 0 {
        Seq::empty()
    } else {
        let next = spec_update_step(phase, running_updater, events[0]);
        seq![next.1] + spec_pass_actions(next.0, running_updater, events.drop_first())
    }
}

/// The phase a pass reaches from `phase` after the observations `events`.
pub open spec fn spec_pass_phase(phase: UpdatePhase, running_updater: Seq<u8>, events: Seq<UpdateEvent>) -> UpdatePhase
    decreases events.len(),
{
    if events.len() == 0 {
        phase
    } else {
        spec_pass_phase(
            spec_update_step(phase, running_updater, events[0]).0,
            running_updater,
            events.drop_first(),
        )
    }
}

proof fn lemma_pass_actions_len(phase: UpdatePhase, running_updater: Seq<u8>, events: Seq<UpdateEvent>)
    ensures
        spec_pass_actions(phase, running_updater, events).len() == events.len(),
    decreases events.len(),
{
    if events.len() > 0 {
        let next = spec_update_step(phase, running_updater, events[0]);
        lemma_pass_actions_len(next.0, running_updater, events.drop_first());
    }
}

/// A finished pass stays finished and repeats its verdict, whatever follows.
pub proof fn lemma_finished_pass_is_final(
    control: UpdateLoopControl,
    running_updater: Seq<u8>,
    events: Seq<UpdateEvent>,
)
    ensures
        spec_pass_phase((UpdatePhase::Finished { control }), running_updater, events)
            == (UpdatePhase::Finished { control }),
        forall|i: int|
            0 <= i < events.len() ==> #[trigger] spec_pass_actions(
                (UpdatePhase::Finished { control }),
                running_updater,
                events,
            )[i] == (UpdateAction::Finish { control }),
    decreases events.len(),
{
    if events.len() > 0 {
        lemma_finished_pass_is_final(control, running_updater, events.drop_first());
        lemma_pass_actions_len(UpdatePhase::Finished { control }, running_updater, events.drop_first());
        let rest = spec_pass_actions(UpdatePhase::Finished { control }, running_updater, events.drop_first());
        assert forall|i: int| 0 <= i < events.len() implies #[trigger] spec_pass_actions(
            UpdatePhase::Finished { control },
            running_updater,
            events,
        )[i] == UpdateAction::Finish { control } by {
            if i > 0 {
                assert(rest[i - 1] == UpdateAction::Finish { control });
            }
        }
    }
}

/// A termination request ends any pass that is still going, with `Stop`.
pub proof fn lemma_termination_stops_the_loop(phase: UpdatePhase, running_updater: Seq<u8>)
    requires
        !(phase is Finished),
    ensures
        spec_update_step(phase, running_updater, UpdateEvent::TerminationRequested) == finished(
            UpdateLoopControl::Stop,
        ),
{
}

/// The standalone update is fetched only right after settings that select the
/// managed install were loaded.
pub proof fn lemma_fetch_only_for_managed_install(
    phase: UpdatePhase,
    running_updater: Seq<u8>,
    event: UpdateEvent,
)
    ensures
        spec_update_step(phase, running_updater, event).1 == UpdateAction::FetchStandaloneUpdate
            ==> phase == UpdatePhase::LoadingSettings && (event matches UpdateEvent::SettingsLoaded {
            settings,
        } && (settings.custom_codex_bin is None)),
{
}

/// With a custom binary persisted, a pass stops the loop as soon as it has
/// read the settings, and never fetches the standalone update, whatever it
/// observes afterwards.
pub proof fn lemma_custom_binary_pass_stops_before_fetching(
    running_updater: Seq<u8>,
    settings: DaemonSettings,
    later: Seq<UpdateEvent>,
)
    requires
        settings.custom_codex_bin is Some,
    ensures
        ({
            let events = seq![(UpdateEvent::SettingsLoaded { settings })] + later;
            &&& spec_pass_phase(UpdatePhase::LoadingSettings, running_updater, events)
                == (UpdatePhase::Finished { control: UpdateLoopControl::Stop })
            &&& !spec_pass_actions(UpdatePhase::LoadingSettings, running_updater, events).contains(
                UpdateAction::FetchStandaloneUpdate,
            )
        }),
{
    let events = seq![UpdateEvent::SettingsLoaded { settings }] + later;
    assert(events.drop_first() =~= later);
    lemma_finished_pass_is_final(UpdateLoopControl::Stop, running_updater, later);
    lemma_pass_actions_len(UpdatePhase::Finished { control: UpdateLoopControl::Stop }, running_updater, later);
    let all = spec_pass_actions(UpdatePhase::LoadingSettings, running_updater, events);
    let rest = spec_pass_actions(
        UpdatePhase::Finished { control: UpdateLoopControl::Stop },
        running_updater,
        later,
    );
    assert(all =~= seq![UpdateAction::Finish { control: UpdateLoopControl::Stop }] + rest);
    if all.contains(UpdateAction::FetchStandaloneUpdate) {
        let i = choose|i: int| 0 <= i < all.len() && all[i] == UpdateAction::FetchStandaloneUpdate;
        assert(rest[i - 1] == UpdateAction::Finish { control: UpdateLoopControl::Stop });
    }
}

/// The observations after which the updater may re-execute itself: app-server
/// found stopped, or restarted successfully, in a pass that found a changed
/// binary.
pub open spec fn reexec_follows_app_server(phase: UpdatePhase, event: UpdateEvent) -> bool {
    match (phase, event) {
        (
            UpdatePhase::CheckingAppServer { refresh, .. },
            UpdateEvent::AppServerStatus { running },
        ) => refresh == UpdaterRefreshMode::ReexecIfManagedBinaryChanged && !running,
        (UpdatePhase::RestartingAppServer { refresh }, UpdateEvent::RestartFinished { succeeded }) =>
            refresh == UpdaterRefreshMode::ReexecIfManagedBinaryChanged && succeeded,
        _ => false,
    }
}

/// The updater re-executes itself only after app-server was found stopped or
/// restarted successfully, and only when the pass had found a changed binary.
pub proof fn lemma_reexec_only_after_app_server_refresh(
    phase: UpdatePhase,
    running_updater: Seq<u8>,
    event: UpdateEvent,
)
    ensures
        spec_update_step(phase, running_updater, event).1 == UpdateAction::ReexecUpdater
            ==> reexec_follows_app_server(phase, event),
{
}

/// Phases after which no re-execution can follow.
pub open spec fn no_reexec_pending(phase: UpdatePhase) -> bool {
    match phase {
        UpdatePhase::CheckingAppServer { refresh, .. } => refresh == UpdaterRefreshMode::NoRefresh,
        UpdatePhase::RestartingAppServer { refresh } => refresh == UpdaterRefreshMode::NoRefresh,
        UpdatePhase::Finished { .. } => true,
        _ => false,
    }
}

proof fn lemma_no_reexec_pending_is_kept(phase: UpdatePhase, running_updater: Seq<u8>, events: Seq<UpdateEvent>)
    requires
        no_reexec_pending(phase),
    ensures
        !spec_pass_actions(phase, running_updater, events).contains(UpdateAction::ReexecUpdater),
    decreases events.len(),
{
    if events.len() > 0 {
        let next = spec_update_step(phase, running_updater, events[0]);
        lemma_no_reexec_pending_is_kept(next.0, running_updater, events.drop_first());
        let all = spec_pass_actions(phase, running_updater, events);
        let rest = spec_pass_actions(next.0, running_updater, events.drop_first());
        if all.contains(UpdateAction::ReexecUpdater) {
            let i = choose|i: int| 0 <= i < all.len() && all[i] == UpdateAction::ReexecUpdater;
            if i > 0 {
                assert(rest[i - 1] == UpdateAction::ReexecUpdater);
            }
        }
    }
}

/// When the fetched managed binary is the image the updater runs from, the
/// pass never re-executes the updater, whatever it observes afterwards.
pub proof fn lemma_unchanged_binary_never_reexecs(
    running_updater: Seq<u8>,
    managed_binary: ExecutableIdentity,
    later: Seq<UpdateEvent>,
)
    requires
        managed_binary@ == running_updater,
    ensures
        !spec_pass_actions(
            UpdatePhase::ReadingManagedBinary,
            running_updater,
            seq![(UpdateEvent::ManagedBinaryRead { identity: managed_binary })] + later,
        ).contains(UpdateAction::ReexecUpdater),
{
    let events = seq![UpdateEvent::ManagedBinaryRead { identity: managed_binary }] + later;
    assert(events.drop_first() =~= later);
    let next = spec_update_step(UpdatePhase::ReadingManagedBinary, running_updater, events[0]);
    lemma_no_reexec_pending_is_kept(next.0, running_updater, later);
    let all = spec_pass_actions(UpdatePhase::ReadingManagedBinary, running_updater, events);
    let rest = spec_pass_actions(next.0, running_updater, later);
    if all.contains(UpdateAction::ReexecUpdater) {
        let i = choose|i: int| 0 <= i < all.len() && all[i] == UpdateAction::ReexecUpdater;
        if i > 0 {
            assert(rest[i - 1] == UpdateAction::ReexecUpdater);
        }
    }
}

/// Whether `event` brings settings that select a custom binary.
pub open spec fn selects_custom_binary(event: UpdateEvent) -> bool {
    match event {
        UpdateEvent::SettingsLoaded { settings } => settings.custom_codex_bin is Some,
        _ => false,
    }
}

/// The loop is only ever stopped by a termination request or by settings that
/// select a custom binary: every other way a pass ends (a failed fetch, an
/// unreadable binary, app-server found stopped or restarted, a failed
/// re-execution) waits for the next scheduled pass.
pub proof fn lemma_stop_only_on_termination_or_custom_binary(
    phase: UpdatePhase,
    running_updater: Seq<u8>,
    event: UpdateEvent,
)
    ensures
        spec_update_step(phase, running_updater, event).1 == (UpdateAction::Finish {
            control: UpdateLoopControl::Stop,
        }) ==> {
            ||| phase == (UpdatePhase::Finished { control: UpdateLoopControl::Stop })
            ||| event is TerminationRequested
            ||| (phase == UpdatePhase::LoadingSettings && selects_custom_binary(event))
        },
        spec_update_step(phase, running_updater, event).0 == (UpdatePhase::Finished {
            control: UpdateLoopControl::Stop,
        }) ==> spec_update_step(phase, running_updater, event).1 == (UpdateAction::Finish {
            control: UpdateLoopControl::Stop,
        }),
{
}

/// A pass with the managed install selected that is not terminated never
/// stops the loop, whatever it observes.
pub proof fn lemma_managed_pass_never_stops(
    phase: UpdatePhase,
    running_updater: Seq<u8>,
    events: Seq<UpdateEvent>,
)
    requires
        phase != UpdatePhase::LoadingSettings,
        phase != (UpdatePhase::Finished { control: UpdateLoopControl::Stop }),
        forall|i: int| 0 <= i < events.len() ==> !(#[trigger] events[i] is TerminationRequested),
    ensures
        !spec_pass_actions(phase, running_updater, events).contains(
            UpdateAction::Finish { control: UpdateLoopControl::Stop },
        ),
        spec_pass_phase(phase, running_updater, events) != (UpdatePhase::Finished {
            control: UpdateLoopControl::Stop,
        }),
    decreases events.len(),
{
    if events.len() > 0 {
        let next = spec_update_step(phase, running_updater, events[0]);
        lemma_stop_only_on_termination_or_custom_binary(phase, running_updater, events[0]);
        assert(next.0 != UpdatePhase::LoadingSettings);
        let rest_events = events.drop_first();
        assert forall|i: int| 0 <= i < rest_events.len() implies !(#[trigger] rest_events[i] is TerminationRequested) by {
            assert(rest_events[i] == events[i + 1]);
        }
        lemma_managed_pass_never_stops(next.0, running_updater, rest_events);
        let all = spec_pass_actions(phase, running_updater, events);
        let rest = spec_pass_actions(next.0, running_updater, rest_events);
        assert(all == seq![next.1] + rest);
        if all.contains(UpdateAction::Finish { control: UpdateLoopControl::Stop }) {
            let i = choose|i: int| 0 <= i < all.len() && all[i] == (UpdateAction::Finish {
                control: UpdateLoopControl::Stop,
            });
            if i > 0 {
                assert(rest[i - 1] == all[i]);
            }
        }
    }
}

/// The restart mode follows the binary: after reading a managed binary that
/// is the updater's own image, a running app-server is restarted only on a
/// version change; after reading any other binary it is always restarted.
pub proof fn lemma_restart_mode_follows_binary(
    running_updater: Seq<u8>,
    managed_binary: ExecutableIdentity,
)
    ensures
        ({
            let checking = spec_update_step(
                UpdatePhase::ReadingManagedBinary,
                running_updater,
                UpdateEvent::ManagedBinaryRead { identity: managed_binary },
            ).0;
            let restart = spec_update_step(
                checking,
                running_updater,
                UpdateEvent::AppServerStatus { running: true },
            ).1;
            &&& managed_binary@ == running_updater ==> restart == (UpdateAction::RestartAppServer {
                mode: RestartMode::IfVersionChanged,
            })
            &&& managed_binary@ != running_updater ==> restart == (UpdateAction::RestartAppServer {
                mode: RestartMode::Always,
            })
        }),
{
}

/// Each action answers the observation it needs: the managed binary is read
/// only after a successful fetch, app-server is queried only once the binary
/// was read, restarted only when it was found running, and a pass that is
/// not over ends with `Continue` only after a failed fetch, an unreadable
/// binary, app-server handled without a changed binary, a failed restart, or
/// a failed re-execution.
pub proof fn lemma_actions_follow_their_observations(
    phase: UpdatePhase,
    running_updater: Seq<u8>,
    event: UpdateEvent,
)
    ensures
        ({
            let action = spec_update_step(phase, running_updater, event).1;
            &&& action == UpdateAction::ReadManagedBinary ==> phase == UpdatePhase::Fetching && event
                == (UpdateEvent::FetchFinished { succeeded: true })
            &&& action == UpdateAction::QueryAppServer ==> phase == UpdatePhase::ReadingManagedBinary
                && event is ManagedBinaryRead
            &&& action is RestartAppServer ==> phase is CheckingAppServer && event
                == (UpdateEvent::AppServerStatus { running: true })
            &&& (action == (UpdateAction::Finish { control: UpdateLoopControl::Continue }) && !(
            phase is Finished)) ==> {
                ||| (phase == UpdatePhase::Fetching && event
                    == (UpdateEvent::FetchFinished { succeeded: false }))
                ||| (phase == UpdatePhase::ReadingManagedBinary && event is ManagedBinaryUnreadable)
                ||| (phase matches UpdatePhase::CheckingAppServer { refresh, .. } && refresh
                    == UpdaterRefreshMode::NoRefresh && event == (UpdateEvent::AppServerStatus {
                    running: false,
                }))
                ||| (phase is RestartingAppServer && event is RestartFinished)
                ||| (phase == UpdatePhase::ReexecutingUpdater && event is ReexecFailed)
            }
            &&& action == UpdateAction::Wait ==> !(phase is Finished) && !(event is TerminationRequested)
        }),
{
}

} // verus!
