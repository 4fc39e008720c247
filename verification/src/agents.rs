use vstd::prelude::*;
use vstd::string::StringExecFns;

verus! {

/// Why a spawn was refused.
#[derive(Debug, Clone, Copy, PartialEq, Eq, Structural)]
pub enum SpawnError {
    /// Every agent thread the session may run is taken.
    AgentThreadLimitReached,
}

/// The text of a spawn error.
pub open spec fn spawn_error_text(error: SpawnError) -> Seq<char> {
    match error {
        SpawnError::AgentThreadLimitReached => "agent thread limit reached"@,
    }
}

/// The text a collaboration tool call reports for a failed spawn.
pub open spec fn collab_spawn_failure(error: SpawnError) -> Seq<char> {
    "collab spawn failed: "@ + spawn_error_text(error)
}

impl SpawnError {
    /// The error's text.
    pub fn message(&self) -> (text: String)
        ensures
            text@ == spawn_error_text(*self),
    {
        match self {
            SpawnError::AgentThreadLimitReached => String::from_str("agent thread limit reached"),
        }
    }

    /// The text the spawning tool call reports.
    pub fn collab_spawn_failure(&self) -> (text: String)
        ensures
            text@ == collab_spawn_failure(*self),
    {
        String::from_str("collab spawn failed: ").concat(self.message().as_str())
    }
}

/// The agent threads of a session: the root thread and every nested spawn,
/// however deep, draw on one shared budget.
pub struct AgentThreadBudget {
    active: usize,
    max: usize,
}

impl AgentThreadBudget {
    /// Threads that run now.
    pub closed spec fn active(&self) -> nat {
        self.active as nat
    }

    /// Threads the session may run at once.
    pub closed spec fn max(&self) -> nat {
        self.max as nat
    }

    /// An idle session that may run `max_concurrent_threads` threads.
    pub fn new(max_concurrent_threads: usize) -> (budget: AgentThreadBudget)
        ensures
            budget.active() == 0,
            budget.max() == max_concurrent_threads,
    {
        AgentThreadBudget { active: 0, max: max_concurrent_threads }
    }

    /// The number of threads that run now.
    pub fn active_threads(&self) -> (n: usize)
        ensures
            n == self.active(),
    {
        self.active
    }

    /// Takes a thread for a new agent, or refuses when the session already
    /// runs as many threads as it may.
    pub fn try_reserve(&mut self) -> (reserved: Result<(), SpawnError>)
        ensures
            final(self).max() == old(self).max(),
            final(self).active() == active_after_reserve(old(self).active(), old(self).max()),
            reserved is Ok <==> old(self).active() < old(self).max(),
            reserved is Err ==> reserved == Err::<(), SpawnError>(SpawnError::AgentThreadLimitReached),
    {
        if self.active < self.max {
            self.active = self.active + 1;
            Ok(())
        } else {
            Err(SpawnError::AgentThreadLimitReached)
        }
    }

    /// Gives back the thread of an agent that finished.
    pub fn release(&mut self)
        requires
            old(self).active() > 0,
        ensures
            final(self).max() == old(self).max(),
            final(self).active() == old(self).active() - 1,
    {
        self.active = self.active - 1;
    }
}

/// The active count after a reservation attempt.
pub open spec fn active_after_reserve(active: nat, max: nat) -> nat {
    if active < max {
        active + 1
    } else {
        active
    }
}

/// The active count after a run of reservations (`true`) and releases
/// (`false`), each release giving back a thread that was taken.
pub open spec fn active_after_run(active: nat, max: nat, reserves: Seq<bool>) -> nat
    decreases reserves.len(),
{
    if reserves.len() == 0 {
        active
    } else {
        let next = if reserves[0] {
            active_after_reserve(active, max)
        } else if active > 0 {
            (active - 1) as nat
        } else {
            0
        };
        active_after_run(next, max, reserves.drop_first())
    }
}

/// However spawns and finishes interleave, a session that starts within its
/// budget never runs more agent threads than the budget allows.
pub proof fn lemma_budget_is_never_exceeded(active: nat, max: nat, reserves: Seq<bool>)
    requires
        active <= max,
    ensures
        active_after_run(active, max, reserves) <= max,
    decreases reserves.len(),
{
    if reserves.len() > 0 {
        let next = if reserves[0] {
            active_after_reserve(active, max)
        } else if active > 0 {
            (active - 1) as nat
        } else {
            0
        };
        lemma_budget_is_never_exceeded(next, max, reserves.drop_first());
    }
}

/// A successful reservation followed by the release of that thread gives the
/// session back the count it had.
pub proof fn lemma_reserve_then_release_restores(active: nat, max: nat)
    requires
        active < max,
    ensures
        active_after_run(active, max, seq![true, false]) == active,
{
    let run = seq![true, false];
    assert(run.drop_first() =~= seq![false]);
    assert(seq![false].drop_first() =~= Seq::<bool>::empty());
    assert(seq![false][0] == false);
    assert(run[0] == true);
    assert(active_after_run(active, max, Seq::<bool>::empty()) == active);
    assert(active_after_run(active + 1, max, seq![false]) == active);
    assert(active_after_run(active, max, run) == active_after_run(active + 1, max, seq![false]));
}

} // verus!
