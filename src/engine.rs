//! The reconciliation protocol shared by the ICMP and TCP probe engines: stop
//! every task, wait for each to acknowledge, then start one task per command.
use vstd::prelude::*;

verus! {

/// Smooth start spreads the first probes of a new task population over this
/// many microseconds.
pub const SMOOTH_MICROS: u64 = 1_000_000;

/// Where an engine stands.
#[derive(Clone, Copy, Debug, PartialEq, Eq, Structural)]
pub enum Phase {
    /// No probing tasks.
    Idle,
    /// `running` tasks probe.
    Active { running: usize },
    /// An exit signal went out; `awaiting` tasks have yet to exit, after which
    /// `next_count` tasks start (none: the engine goes idle).
    Draining { awaiting: usize, next_count: usize },
}

/// What the engine asks its driver to do.
#[derive(Clone, Copy, Debug, PartialEq, Eq, Structural)]
pub enum EngineAction {
    Nothing,
    /// Start one task per pending command, one every `tick_micros`.
    StartTasks { count: usize, tick_micros: u64 },
    /// Broadcast the exit signal to the `count` running tasks.
    StopAll { count: usize },
}

/// The interval between task starts when `n` tasks start: one second spread
/// evenly, and never less than a microsecond.
pub open spec fn smooth_tick(n: nat) -> u64 {
    if n == 0 || (SMOOTH_MICROS as nat) / n == 0 {
        1
    } else {
        ((SMOOTH_MICROS as nat) / n) as u64
    }
}

/// The interval between task starts when `n` tasks start.
pub fn smooth_tick_micros(n: usize) -> (r: u64)
    ensures
        r == smooth_tick(n as nat),
        r >= 1,
{
    if n == 0 {
        return 1;
    }
    let t = SMOOTH_MICROS / n as u64;
    if t == 0 {
        1
    } else {
        t
    }
}

/// A single task starts once a second, which is the probe interval's own pace.
pub proof fn lemma_smooth_start_single()
    ensures
        smooth_tick(1) == SMOOTH_MICROS,
{
}

/// For up to a million tasks the starts fit in one second and fill it: `n`
/// ticks take at most one second, and less than one tick per task is left
/// over. Beyond that the interval stays at one microsecond, so the engine
/// never stalls on a zero period.
pub proof fn lemma_smooth_start_spread(n: nat)
    requires
        n >= 1,
    ensures
        smooth_tick(n) >= 1,
        n <= SMOOTH_MICROS ==> n * smooth_tick(n) <= SMOOTH_MICROS,
        n <= SMOOTH_MICROS ==> SMOOTH_MICROS < n * smooth_tick(n) + n,
        n > SMOOTH_MICROS ==> smooth_tick(n) == 1,
{
    let m = SMOOTH_MICROS as int;
    let q = m / (n as int);
    vstd::arithmetic::div_mod::lemma_fundamental_div_mod(m, n as int);
    vstd::arithmetic::div_mod::lemma_mod_bound(m, n as int);
    if n <= SMOOTH_MICROS {
        assert(q >= 1) by {
            vstd::arithmetic::div_mod::lemma_div_is_ordered(n as int, m, n as int);
            vstd::arithmetic::div_mod::lemma_div_by_self(n as int);
        }
        assert(n * q <= m && m < n * q + n) by (nonlinear_arith)
            requires
                m == n * q + m % (n as int),
                0 <= m % (n as int) < n,
        ;
    } else {
        assert(q == 0) by {
            vstd::arithmetic::div_mod::lemma_basic_div(m, n as int);
        }
    }
}

/// The phase after a command set of `n` commands with version `v` arrives
/// while the engine runs the set with version `cur`. A set with the running
/// version is the running set: it changes nothing.
pub open spec fn phase_after_commands(p: Phase, cur: Option<Seq<char>>, v: Seq<char>, n: usize) -> Phase {
    match p {
        Phase::Active { running } => {
            if cur == Some(v) {
                p
            } else {
                Phase::Draining { awaiting: running, next_count: n }
            }
        },
        _ => {
            if n == 0 {
                Phase::Idle
            } else {
                Phase::Active { running: n }
            }
        },
    }
}

/// The action that goes with `phase_after_commands`.
pub open spec fn action_after_commands(p: Phase, cur: Option<Seq<char>>, v: Seq<char>, n: usize) -> EngineAction {
    match p {
        Phase::Active { running } => {
            if cur == Some(v) {
                EngineAction::Nothing
            } else {
                EngineAction::StopAll { count: running }
            }
        },
        _ => {
            if n == 0 {
                EngineAction::Nothing
            } else {
                EngineAction::StartTasks { count: n, tick_micros: smooth_tick(n as nat) }
            }
        },
    }
}

/// The phase once draining is over: the pending set runs, or nothing does.
pub open spec fn drained(next_count: usize) -> Phase {
    if next_count == 0 {
        Phase::Idle
    } else {
        Phase::Active { running: next_count }
    }
}

/// The phase after one task exits: acknowledging the exit signal while
/// draining, or ending on its own (a task that could not open its socket) while
/// active. A task that ends on its own is not restarted.
pub open spec fn phase_after_exit(p: Phase) -> Phase {
    match p {
        Phase::Draining { awaiting, next_count } => {
            if awaiting <= 1 {
                drained(next_count)
            } else {
                Phase::Draining { awaiting: (awaiting - 1) as usize, next_count }
            }
        },
        Phase::Active { running } => {
            if running <= 1 {
                Phase::Idle
            } else {
                Phase::Active { running: (running - 1) as usize }
            }
        },
        Phase::Idle => Phase::Idle,
    }
}

/// The action that goes with `phase_after_exit`.
pub open spec fn action_after_exit(p: Phase) -> EngineAction {
    match p {
        Phase::Draining { awaiting, next_count } => {
            if awaiting <= 1 && next_count > 0 {
                EngineAction::StartTasks { count: next_count, tick_micros: smooth_tick(next_count as nat) }
            } else {
                EngineAction::Nothing
            }
        },
        _ => EngineAction::Nothing,
    }
}

/// The phase after `k` task exits.
pub open spec fn phase_after_exits(p: Phase, k: nat) -> Phase
    decreases k,
{
    if k == 0 {
        p
    } else {
        phase_after_exit(phase_after_exits(p, (k - 1) as nat))
    }
}

/// The steady phase after a command set arrives: the set is applied and, where
/// that needs draining, every running task has exited.
pub open spec fn settled(p: Phase, cur: Option<Seq<char>>, v: Seq<char>, n: usize) -> Phase {
    match phase_after_commands(p, cur, v, n) {
        Phase::Draining { awaiting, next_count } => drained(next_count),
        q => q,
    }
}

/// Every phase that the engine can be in: an active engine has tasks, and a
/// draining one waits for at least one.
pub open spec fn phase_wf(p: Phase) -> bool {
    match p {
        Phase::Idle => true,
        Phase::Active { running } => running > 0,
        Phase::Draining { awaiting, next_count } => awaiting > 0,
    }
}

/// The reconciliation state of one probe engine.
#[derive(Debug)]
pub struct Engine {
    pub phase: Phase,
    /// Version of the command set most recently applied.
    pub version: Option<String>,
}

impl Engine {
    pub open spec fn wf(&self) -> bool {
        phase_wf(self.phase)
    }

    pub open spec fn version_view(&self) -> Option<Seq<char>> {
        match self.version {
            Some(v) => Some(v@),
            None => None,
        }
    }

    pub open spec fn draining(&self) -> bool {
        self.phase is Draining
    }

    /// An idle engine that has applied no command set.
    pub fn new() -> (e: Engine)
        ensures
            e.wf(),
            e.phase == Phase::Idle,
            e.version_view() == None::<Seq<char>>,
    {
        Engine { phase: Phase::Idle, version: None }
    }

    /// Whether the engine waits for tasks to exit; no command set is taken
    /// meanwhile.
    pub fn is_draining(&self) -> (r: bool)
        ensures
            r == self.draining(),
    {
        match self.phase {
            Phase::Draining { .. } => true,
            _ => false,
        }
    }

    /// Takes a command set of `count` commands with version `version`.
    pub fn on_commands(&mut self, version: &String, count: usize) -> (a: EngineAction)
        requires
            old(self).wf(),
            !old(self).draining(),
        ensures
            final(self).wf(),
            final(self).phase == phase_after_commands(old(self).phase, old(self).version_view(), version@, count),
            final(self).version_view() == Some(version@),
            a == action_after_commands(old(self).phase, old(self).version_view(), version@, count),
    {
        let same = match &self.version {
            Some(cur) => *cur == *version,
            None => false,
        };
        let ghost cur = self.version_view();
        assert(same == (cur == Some(version@)));
        match self.phase {
            Phase::Active { running } => {
                if same {
                    EngineAction::Nothing
                } else {
                    self.phase = Phase::Draining { awaiting: running, next_count: count };
                    self.version = Some(version.clone());
                    EngineAction::StopAll { count: running }
                }
            },
            _ => {
                self.version = Some(version.clone());
                if count == 0 {
                    self.phase = Phase::Idle;
                    EngineAction::Nothing
                } else {
                    self.phase = Phase::Active { running: count };
                    EngineAction::StartTasks { count, tick_micros: smooth_tick_micros(count) }
                }
            },
        }
    }

    /// Takes the exit of one task.
    pub fn on_task_exited(&mut self) -> (a: EngineAction)
        requires
            old(self).wf(),
        ensures
            final(self).wf(),
            final(self).phase == phase_after_exit(old(self).phase),
            final(self).version_view() == old(self).version_view(),
            a == action_after_exit(old(self).phase),
    {
        match self.phase {
            Phase::Draining { awaiting, next_count } => {
                if awaiting <= 1 {
                    if next_count == 0 {
                        self.phase = Phase::Idle;
                        EngineAction::Nothing
                    } else {
                        self.phase = Phase::Active { running: next_count };
                        EngineAction::StartTasks { count: next_count, tick_micros: smooth_tick_micros(next_count) }
                    }
                } else {
                    self.phase = Phase::Draining { awaiting: awaiting - 1, next_count };
                    EngineAction::Nothing
                }
            },
            Phase::Active { running } => {
                if running <= 1 {
                    self.phase = Phase::Idle;
                } else {
                    self.phase = Phase::Active { running: running - 1 };
                }
                EngineAction::Nothing
            },
            Phase::Idle => EngineAction::Nothing,
        }
    }
}

/// Draining ends after exactly as many exits as tasks were stopped, in the
/// phase that the pending set calls for.
pub proof fn lemma_drain_completes(awaiting: usize, next_count: usize, k: nat)
    requires
        awaiting > 0,
        k <= awaiting,
    ensures
        k < awaiting ==> phase_after_exits(Phase::Draining { awaiting, next_count }, k) == (Phase::Draining {
            awaiting: (awaiting - k) as usize,
            next_count,
        }),
        k == awaiting ==> phase_after_exits(Phase::Draining { awaiting, next_count }, k) == drained(next_count),
    decreases k,
{
    if k > 0 {
        lemma_drain_completes(awaiting, next_count, (k - 1) as nat);
    }
}

/// Applying the same command set twice leaves the same task population as
/// applying it once, and the second delivery asks for nothing.
pub proof fn lemma_same_set_twice(p: Phase, cur: Option<Seq<char>>, v: Seq<char>, n: usize)
    requires
        phase_wf(p),
        !(p is Draining),
    ensures
        settled(settled(p, cur, v, n), Some(v), v, n) == settled(p, cur, v, n),
        action_after_commands(settled(p, cur, v, n), Some(v), v, n) == EngineAction::Nothing,
{
}

/// A set with the version that is running causes no disturbance: no task is
/// stopped and none is started.
pub proof fn lemma_same_version_undisturbed(running: usize, v: Seq<char>, n: usize)
    ensures
        phase_after_commands(Phase::Active { running }, Some(v), v, n) == (Phase::Active { running }),
        action_after_commands(Phase::Active { running }, Some(v), v, n) == EngineAction::Nothing,
{
}

/// An empty command set of a new version stops every running task and leaves
/// the engine idle once they have all exited.
pub proof fn lemma_empty_set_goes_idle(p: Phase, cur: Option<Seq<char>>, v: Seq<char>)
    requires
        phase_wf(p),
        !(p is Draining),
        cur != Some(v),
    ensures
        settled(p, cur, v, 0) == Phase::Idle,
        p matches Phase::Active { running } ==> action_after_commands(p, cur, v, 0) == (EngineAction::StopAll {
            count: running,
        }) && phase_after_exits(phase_after_commands(p, cur, v, 0), running as nat) == Phase::Idle,
        p is Idle ==> action_after_commands(p, cur, v, 0) == EngineAction::Nothing,
{
    if let Phase::Active { running } = p {
        lemma_drain_completes(running, 0, running as nat);
    }
}

} // verus!
