use vstd::prelude::*;
use vstd::string::StringExecFns;

verus! {

/// The daemon's state directory under `CODEX_HOME`.
pub open spec fn state_dir(codex_home: Seq<char>) -> Seq<char> {
    codex_home + "/app-server-daemon"@
}

/// A file of the daemon's state directory.
pub open spec fn state_file(codex_home: Seq<char>, name: Seq<char>) -> Seq<char> {
    state_dir(codex_home) + "/"@ + name
}

/// The standalone managed binary that `install.sh` maintains.
pub open spec fn managed_codex_bin(codex_home: Seq<char>) -> Seq<char> {
    codex_home + "/packages/standalone/current/codex"@
}

/// Where a daemon keeps its control socket, records and settings.
pub struct Daemon {
    pub socket_path: String,
    pub pid_file: String,
    pub update_pid_file: String,
    pub operation_lock_file: String,
    pub settings_file: String,
    pub managed_codex_bin: String,
}

impl Daemon {
    /// The daemon of the Codex home `codex_home`: its state lives in
    /// `CODEX_HOME/app-server-daemon/`, its binary is the standalone install.
    pub fn for_codex_home(codex_home: &str) -> (daemon: Daemon)
        ensures
            daemon.socket_path@ == state_file(codex_home@, "app-server-control.sock"@),
            daemon.pid_file@ == state_file(codex_home@, "app-server.pid"@),
            daemon.update_pid_file@ == state_file(codex_home@, "app-server-updater.pid"@),
            daemon.operation_lock_file@ == state_file(codex_home@, "daemon.lock"@),
            daemon.settings_file@ == state_file(codex_home@, "settings.json"@),
            daemon.managed_codex_bin@ == managed_codex_bin(codex_home@),
            daemon.socket_path@ == codex_home@ + "/app-server-daemon/app-server-control.sock"@,
            daemon.pid_file@ == codex_home@ + "/app-server-daemon/app-server.pid"@,
            daemon.update_pid_file@ == codex_home@ + "/app-server-daemon/app-server-updater.pid"@,
            daemon.operation_lock_file@ == codex_home@ + "/app-server-daemon/daemon.lock"@,
            daemon.settings_file@ == codex_home@ + "/app-server-daemon/settings.json"@,
            daemon.managed_codex_bin@ == codex_home@ + "/packages/standalone/current/codex"@,
    {
        proof {
            reveal_strlit("/app-server-daemon");
            reveal_strlit("/");
            reveal_strlit("app-server-control.sock");
            reveal_strlit("app-server.pid");
            reveal_strlit("app-server-updater.pid");
            reveal_strlit("daemon.lock");
            reveal_strlit("settings.json");
            reveal_strlit("/app-server-daemon/app-server-control.sock");
            reveal_strlit("/app-server-daemon/app-server.pid");
            reveal_strlit("/app-server-daemon/app-server-updater.pid");
            reveal_strlit("/app-server-daemon/daemon.lock");
            reveal_strlit("/app-server-daemon/settings.json");
            let home = codex_home@;
            assert(state_file(home, "app-server-control.sock"@) =~= home
                + "/app-server-daemon/app-server-control.sock"@);
            assert(state_file(home, "app-server.pid"@) =~= home + "/app-server-daemon/app-server.pid"@);
            assert(state_file(home, "app-server-updater.pid"@) =~= home
                + "/app-server-daemon/app-server-updater.pid"@);
            assert(state_file(home, "daemon.lock"@) =~= home + "/app-server-daemon/daemon.lock"@);
            assert(state_file(home, "settings.json"@) =~= home + "/app-server-daemon/settings.json"@);
        }
        Daemon {
            socket_path: Self::state_file(codex_home, "app-server-control.sock"),
            pid_file: Self::state_file(codex_home, "app-server.pid"),
            update_pid_file: Self::state_file(codex_home, "app-server-updater.pid"),
            operation_lock_file: Self::state_file(codex_home, "daemon.lock"),
            settings_file: Self::state_file(codex_home, "settings.json"),
            managed_codex_bin: String::from_str(codex_home).concat("/packages/standalone/current/codex"),
        }
    }

    fn state_file(codex_home: &str, name: &str) -> (path: String)
        ensures
            path@ == state_file(codex_home@, name@),
    {
        let path = String::from_str(codex_home).concat("/app-server-daemon").concat("/").concat(name);
        assert(path@ =~= state_file(codex_home@, name@));
        path
    }
}

/// What `start` does.
#[derive(Debug, Clone, Copy, PartialEq, Eq, Structural)]
pub enum StartAction {
    /// A managed app-server already answers; report it and launch nothing.
    AlreadyRunning,
    /// Launch app-server and wait until it answers the initialize handshake.
    Launch,
}

/// `start` launches app-server only when none is running.
pub open spec fn spec_plan_start(app_server_running: bool) -> StartAction {
    if app_server_running {
        StartAction::AlreadyRunning
    } else {
        StartAction::Launch
    }
}

/// Whether app-server runs after `start`, given whether it ran before and
/// whether a launch (if one happens) comes up ready.
pub open spec fn running_after_start(app_server_running: bool, launch_ready: bool) -> bool {
    match spec_plan_start(app_server_running) {
        StartAction::AlreadyRunning => true,
        StartAction::Launch => launch_ready,
    }
}

/// Plans `start`, which is idempotent: it launches app-server only when no
/// managed app-server is running.
pub fn plan_start(app_server_running: bool) -> (action: StartAction)
    ensures
        action == spec_plan_start(app_server_running),
        app_server_running ==> action == StartAction::AlreadyRunning,
        !app_server_running ==> action == StartAction::Launch,
{
    if app_server_running {
        StartAction::AlreadyRunning
    } else {
        StartAction::Launch
    }
}

/// A second `start` after one that brought app-server up launches nothing and
/// leaves it running, whatever a launch would have done.
pub proof fn lemma_start_is_idempotent(app_server_running: bool, launch_ready: bool, second_launch_ready: bool)
    requires
        running_after_start(app_server_running, launch_ready),
    ensures
        spec_plan_start(running_after_start(app_server_running, launch_ready)) == StartAction::AlreadyRunning,
        running_after_start(running_after_start(app_server_running, launch_ready), second_launch_ready),
{
}

/// How far `stop` has got.
#[derive(Debug, Clone, Copy, PartialEq, Eq, Structural)]
pub enum StopPhase {
    /// No signal was sent yet.
    NotStarted,
    /// The graceful termination request was sent; the grace window runs.
    AwaitingGracefulExit,
    /// The second termination signal was sent.
    AwaitingForcedExit,
    /// `stop` is over.
    Done { outcome: StopOutcome },
}

/// How `stop` ended.
#[derive(Debug, Clone, Copy, PartialEq, Eq, Structural)]
pub enum StopOutcome {
    /// No managed app-server was alive.
    NotRunning,
    /// The app-server process is gone.
    Stopped,
    /// The process outlived the second signal.
    StillRunning,
}

/// What `stop` does next.
#[derive(Debug, Clone, Copy, PartialEq, Eq, Structural)]
pub enum StopAction {
    /// Send a termination signal, then wait out the grace window.
    SendTermination,
    /// Report the outcome.
    Report { outcome: StopOutcome },
}

/// One step of `stop`, given whether the process is alive now (at the start,
/// or at the end of the grace window that followed the last signal).
pub open spec fn spec_stop_step(phase: StopPhase, alive: bool) -> (StopPhase, StopAction) {
    match phase {
        StopPhase::NotStarted => if alive {
            (StopPhase::AwaitingGracefulExit, StopAction::SendTermination)
        } else {
            (StopPhase::Done { outcome: StopOutcome::NotRunning }, StopAction::Report { outcome: StopOutcome::NotRunning })
        },
        StopPhase::AwaitingGracefulExit => if alive {
            (StopPhase::AwaitingForcedExit, StopAction::SendTermination)
        } else {
            (StopPhase::Done { outcome: StopOutcome::Stopped }, StopAction::Report { outcome: StopOutcome::Stopped })
        },
        StopPhase::AwaitingForcedExit => if alive {
            (StopPhase::Done { outcome: StopOutcome::StillRunning }, StopAction::Report { outcome: StopOutcome::StillRunning })
        } else {
            (StopPhase::Done { outcome: StopOutcome::Stopped }, StopAction::Report { outcome: StopOutcome::Stopped })
        },
        StopPhase::Done { outcome } => (StopPhase::Done { outcome }, StopAction::Report { outcome }),
    }
}

/// Steps `stop`: a graceful termination request first, then a second
/// termination signal if the process is still alive after the grace window.
pub fn stop_step(phase: StopPhase, alive: bool) -> (next: (StopPhase, StopAction))
    ensures
        next == spec_stop_step(phase, alive),
{
    match phase {
        StopPhase::NotStarted => if alive {
            (StopPhase::AwaitingGracefulExit, StopAction::SendTermination)
        } else {
            (StopPhase::Done { outcome: StopOutcome::NotRunning }, StopAction::Report { outcome: StopOutcome::NotRunning })
        },
        StopPhase::AwaitingGracefulExit => if alive {
            (StopPhase::AwaitingForcedExit, StopAction::SendTermination)
        } else {
            (StopPhase::Done { outcome: StopOutcome::Stopped }, StopAction::Report { outcome: StopOutcome::Stopped })
        },
        StopPhase::AwaitingForcedExit => if alive {
            (StopPhase::Done { outcome: StopOutcome::StillRunning }, StopAction::Report { outcome: StopOutcome::StillRunning })
        } else {
            (StopPhase::Done { outcome: StopOutcome::Stopped }, StopAction::Report { outcome: StopOutcome::Stopped })
        },
        StopPhase::Done { outcome } => (StopPhase::Done { outcome }, StopAction::Report { outcome }),
    }
}

/// The number of termination signals `stop` sends from `phase` on, for the
/// successive liveness observations `alive`.
pub open spec fn signals_sent(phase: StopPhase, alive: Seq<bool>) -> nat
    decreases alive.len(),
{
    if alive.len() == 0 {
        0
    } else {
        let next = spec_stop_step(phase, alive[0]);
        (if next.1 == StopAction::SendTermination { 1nat } else { 0nat }) + signals_sent(
            next.0,
            alive.drop_first(),
        )
    }
}

/// Signals still to come from a phase.
pub open spec fn signals_left(phase: StopPhase) -> nat {
    match phase {
        StopPhase::NotStarted => 2,
        StopPhase::AwaitingGracefulExit => 1,
        _ => 0,
    }
}

proof fn lemma_signals_bounded(phase: StopPhase, alive: Seq<bool>)
    ensures
        signals_sent(phase, alive) <= signals_left(phase),
    decreases alive.len(),
{
    if alive.len() > 0 {
        lemma_signals_bounded(spec_stop_step(phase, alive[0]).0, alive.drop_first());
    }
}

/// Whatever `stop` observes, it sends at most two termination signals, and it
/// sends none to a process that was not alive to begin with.
pub proof fn lemma_stop_sends_at_most_two_signals(alive: Seq<bool>)
    ensures
        signals_sent(StopPhase::NotStarted, alive) <= 2,
        alive.len() > 0 && !alive[0] ==> signals_sent(StopPhase::NotStarted, alive) == 0,
{
    lemma_signals_bounded(StopPhase::NotStarted, alive);
    if alive.len() > 0 && !alive[0] {
        lemma_signals_bounded(
            spec_stop_step(StopPhase::NotStarted, alive[0]).0,
            alive.drop_first(),
        );
    }
}

/// `stop` signals only a process it saw alive, reports `NotRunning` only when
/// nothing was alive to begin with, `Stopped` only once the process was seen
/// gone after a signal, and `StillRunning` only when it outlived the second
/// signal.
pub proof fn lemma_stop_reports_what_it_saw(phase: StopPhase, alive: bool)
    ensures
        spec_stop_step(phase, alive).1 == StopAction::SendTermination ==> alive,
        spec_stop_step(phase, alive).1 == (StopAction::Report { outcome: StopOutcome::NotRunning })
            ==> (phase == StopPhase::NotStarted && !alive) || phase == (StopPhase::Done {
            outcome: StopOutcome::NotRunning,
        }),
        spec_stop_step(phase, alive).1 == (StopAction::Report { outcome: StopOutcome::Stopped })
            ==> ((phase == StopPhase::AwaitingGracefulExit || phase == StopPhase::AwaitingForcedExit)
            && !alive) || phase == (StopPhase::Done { outcome: StopOutcome::Stopped }),
        spec_stop_step(phase, alive).1 == (StopAction::Report { outcome: StopOutcome::StillRunning })
            ==> (phase == StopPhase::AwaitingForcedExit && alive) || phase == (StopPhase::Done {
            outcome: StopOutcome::StillRunning,
        }),
        phase == StopPhase::NotStarted && alive ==> spec_stop_step(phase, alive).1
            == StopAction::SendTermination,
        phase == StopPhase::AwaitingGracefulExit && alive ==> spec_stop_step(phase, alive).1
            == StopAction::SendTermination,
{
}

} // verus!
