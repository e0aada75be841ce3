//! The life of the backend process as the application sees it:
//! `NotStarted`, then `Running` or `Absent`, then `Terminated`.

use vstd::prelude::*;

verus! {

/// Where the backend stands.
#[derive(Clone, Copy, Debug, PartialEq, Eq, Structural)]
pub enum Phase {
    /// No spawn has been attempted yet.
    NotStarted,
    /// A backend process was started and is held.
    Running,
    /// The spawn was attempted and no process is held.
    Absent,
    /// Teardown has run.
    Terminated,
}

/// What happens to the guard.
#[derive(Clone, Copy, Debug, PartialEq, Eq, Structural)]
pub enum Event {
    /// A spawn was attempted; `running` says whether a process came of it.
    Spawned { running: bool },
    /// The application is being torn down.
    Teardown,
}

/// Phase after a spawn attempt. Only the first attempt counts, and none after
/// teardown.
pub open spec fn after_spawn(p: Phase, running: bool) -> Phase {
    if p is NotStarted {
        if running { Phase::Running } else { Phase::Absent }
    } else {
        p
    }
}

/// Phase after teardown, and whether the process must be sent a kill.
pub open spec fn after_teardown(p: Phase) -> (Phase, bool) {
    (Phase::Terminated, p is Running)
}

/// One step of the guard: the next phase, and whether a kill is sent.
pub open spec fn next(p: Phase, e: Event) -> (Phase, bool) {
    match e {
        Event::Spawned { running } => (after_spawn(p, running), false),
        Event::Teardown => after_teardown(p),
    }
}

/// Phase of a fresh guard after a sequence of events.
pub open spec fn phase_after(evs: Seq<Event>) -> Phase
    decreases evs.len(),
{
    if evs.len() == 0 {
        Phase::NotStarted
    } else {
        next(phase_after(evs.drop_last()), evs.last()).0
    }
}

/// Number of kills a fresh guard sends over a sequence of events.
pub open spec fn kills(evs: Seq<Event>) -> nat
    decreases evs.len(),
{
    if evs.len() == 0 {
        0
    } else {
        kills(evs.drop_last()) + if next(phase_after(evs.drop_last()), evs.last()).1 {
            1nat
        } else {
            0nat
        }
    }
}

/// Owner of the backend process's lifetime: it records the one spawn attempt
/// and decides, at teardown, whether the process is to be killed.
pub struct BackendChild {
    phase: Phase,
}

impl BackendChild {
    pub closed spec fn phase_spec(&self) -> Phase {
        self.phase
    }

    /// A guard before any spawn attempt.
    pub fn new() -> (r: BackendChild)
        ensures
            r.phase_spec() == Phase::NotStarted,
    {
        BackendChild { phase: Phase::NotStarted }
    }

    /// Where the backend stands.
    pub fn phase(&self) -> (r: Phase)
        ensures
            r == self.phase_spec(),
    {
        self.phase
    }

    /// Whether a spawn may still be attempted: only before the first attempt
    /// and before teardown.
    pub fn may_spawn(&self) -> (r: bool)
        ensures
            r == (self.phase_spec() is NotStarted),
    {
        matches!(self.phase, Phase::NotStarted)
    }

    /// Records the outcome of a spawn attempt.
    pub fn record_spawn(&mut self, running: bool)
        ensures
            final(self).phase_spec() == after_spawn(old(self).phase_spec(), running),
    {
        if matches!(self.phase, Phase::NotStarted) {
            self.phase = if running { Phase::Running } else { Phase::Absent };
        }
    }

    /// Tears the guard down. Returns whether the held process is to be sent a
    /// kill: only when one is running, so that a second teardown, or one with
    /// no process, does nothing.
    pub fn teardown(&mut self) -> (kill: bool)
        ensures
            (final(self).phase_spec(), kill) == after_teardown(old(self).phase_spec()),
            final(self).phase_spec() == Phase::Terminated,
            kill == (old(self).phase_spec() == Phase::Running),
    {
        let kill = matches!(self.phase, Phase::Running);
        self.phase = Phase::Terminated;
        kill
    }
}

/// Teardown is idempotent: with no running process it sends no kill, and a
/// second teardown changes nothing and sends no kill.
pub proof fn lemma_teardown_idempotent(p: Phase)
    ensures
        !(p is Running) ==> after_teardown(p) == (Phase::Terminated, false),
        after_teardown(after_teardown(p).0) == (after_teardown(p).0, false),
{
}

/// Over any sequence of events from a fresh guard: at most one kill is sent,
/// only after a spawn that left a process running, and once teardown has come
/// the guard stays torn down, so no spawn is recorded after it.
pub proof fn lemma_teardown_at_most_once(evs: Seq<Event>)
    ensures
        kills(evs) <= 1,
        kills(evs) == 1 ==> exists|i: int| 0 <= i < evs.len() && evs[i] == (Event::Spawned { running: true }),
        (exists|i: int| 0 <= i < evs.len() && evs[i] is Teardown) ==> phase_after(evs) == Phase::Terminated,
        !(phase_after(evs) is Terminated) ==> kills(evs) == 0,
        phase_after(evs) is Running ==> exists|i: int| 0 <= i < evs.len() && evs[i] == (Event::Spawned { running: true }),
    decreases evs.len(),
{
    if evs.len() > 0 {
        let pre = evs.drop_last();
        lemma_teardown_at_most_once(pre);
        assert forall|i: int| 0 <= i < pre.len() implies pre[i] == evs[i] by {}
        if exists|i: int| 0 <= i < evs.len() && evs[i] is Teardown {
            let i = choose|i: int| 0 <= i < evs.len() && evs[i] is Teardown;
            if i < pre.len() {
                assert(pre[i] is Teardown);
            }
        }
        if phase_after(pre) is Running {
            let i = choose|i: int| 0 <= i < pre.len() && pre[i] == (Event::Spawned { running: true });
            assert(evs[i] == (Event::Spawned { running: true }));
        }
        if kills(pre) == 1 {
            let i = choose|i: int| 0 <= i < pre.len() && pre[i] == (Event::Spawned { running: true });
            assert(evs[i] == (Event::Spawned { running: true }));
        }
        if evs.last() == (Event::Spawned { running: true }) {
            assert(evs[evs.len() - 1] == (Event::Spawned { running: true }));
        }
    }
}

} // verus!
