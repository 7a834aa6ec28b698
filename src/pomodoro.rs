use crate::config::{Phase, PomodoroStateConfig};
use vstd::prelude::*;

verus! {

/// The phase that follows the current one once it completes.
pub open spec fn phase_after(c: PomodoroStateConfig) -> Phase {
    match c.current_phase {
        Phase::Work => {
            let done = c.current_cycle + 1;
            if done == c.cycles {
                Phase::Idle
            } else if done % (c.long_break_interval as int) == 0 {
                Phase::LongBreak
            } else {
                Phase::ShortBreak
            }
        },
        Phase::ShortBreak | Phase::LongBreak => {
            if c.current_cycle >= c.cycles {
                Phase::Idle
            } else {
                Phase::Work
            }
        },
        Phase::Idle => Phase::Idle,
    }
}

/// The count of completed work cycles once the current phase completes.
pub open spec fn cycle_after(c: PomodoroStateConfig) -> u32 {
    if c.current_phase == Phase::Work {
        (c.current_cycle + 1) as u32
    } else {
        c.current_cycle
    }
}

/// The state right after the current phase completes: the next phase, the
/// updated cycle count, no time left, and stopped if the session went idle.
pub open spec fn advanced(c: PomodoroStateConfig) -> PomodoroStateConfig {
    PomodoroStateConfig {
        current_cycle: cycle_after(c),
        current_phase: phase_after(c),
        time_left: 0,
        is_running: c.is_running && phase_after(c) != Phase::Idle,
        ..c
    }
}

/// One second of countdown: the new state, and the phase entered when the
/// current one ran out.
pub open spec fn tick_spec(c: PomodoroStateConfig) -> (PomodoroStateConfig, Option<Phase>) {
    if c.current_phase == Phase::Idle {
        (c, None)
    } else if c.time_left > 1 {
        (PomodoroStateConfig { time_left: (c.time_left - 1) as u32, ..c }, None)
    } else {
        (advanced(c), Some(phase_after(c)))
    }
}

/// Moves the cycle count past the current phase and returns the phase that
/// follows it. The current phase itself is left for the caller to replace.
pub fn next_phase(cfg: &mut PomodoroStateConfig) -> (r: Phase)
    requires
        old(cfg).long_break_interval > 0,
        old(cfg).current_phase == Phase::Work ==> old(cfg).current_cycle < u32::MAX,
    ensures
        r == phase_after(*old(cfg)),
        *final(cfg) == (PomodoroStateConfig { current_cycle: cycle_after(*old(cfg)), ..*old(cfg) }),
{
    match cfg.current_phase {
        Phase::Work => {
            cfg.current_cycle = cfg.current_cycle + 1;
            if cfg.current_cycle == cfg.cycles {
                return Phase::Idle;
            }
            if cfg.current_cycle % cfg.long_break_interval == 0 {
                Phase::LongBreak
            } else {
                Phase::ShortBreak
            }
        },
        Phase::ShortBreak | Phase::LongBreak => {
            if cfg.current_cycle >= cfg.cycles {
                Phase::Idle
            } else {
                Phase::Work
            }
        },
        Phase::Idle => Phase::Idle,
    }
}

/// Counts one second down, not below zero. When no time is left after that,
/// the session moves to the next phase with no time left (the driver seeds
/// it), and that phase is returned so that its start can be announced. An
/// idle session is left as it is.
pub fn tick(cfg: &mut PomodoroStateConfig) -> (entered: Option<Phase>)
    requires
        old(cfg).wf(),
    ensures
        (*final(cfg), entered) == tick_spec(*old(cfg)),
        final(cfg).wf(),
{
    if cfg.current_phase == Phase::Idle {
        return None;
    }
    if cfg.time_left > 1 {
        cfg.time_left = cfg.time_left - 1;
        return None;
    }
    let next = next_phase(cfg);
    cfg.current_phase = next;
    cfg.time_left = 0;
    if next == Phase::Idle {
        cfg.is_running = false;
    }
    Some(next)
}

/// Whether a countdown driver is active for the session. At most one is.
#[derive(Clone, Copy, Debug, PartialEq, Eq, Structural)]
pub enum DriverState {
    Stopped,
    Running,
}

/// What the caller of a session operation must carry out afterwards.
#[derive(Clone, Copy, Debug, PartialEq, Eq, Structural)]
pub struct Effects {
    /// Save the session state.
    pub persist: bool,
    /// Start the one countdown driver; it calls `step` once a second.
    pub spawn_driver: bool,
    /// Announce the start of this phase (notification, sound, site blocking).
    pub announce: Option<Phase>,
}

/// What the countdown driver must carry out after one `step`.
#[derive(Clone, Copy, Debug, PartialEq, Eq, Structural)]
pub struct Step {
    /// When the phase ran out: the state the tick left (the next phase, no
    /// time left), to be saved before the session state, which has the next
    /// phase seeded with its full length.
    pub exhausted: Option<PomodoroStateConfig>,
    /// Save the session state.
    pub persist: bool,
    /// Announce the start of this phase.
    pub announce: Option<Phase>,
    /// Sleep a second and step again; when false the driver exits.
    pub keep_running: bool,
}

/// The handle on the session's countdown driver. Every operation takes the
/// session state, under the caller's exclusive access, and says what to do.
#[derive(Clone, Copy, Debug, PartialEq, Eq, Structural)]
pub struct PomodoroHandle {
    pub driver: DriverState,
}

/// Nothing to carry out.
pub open spec fn no_effects() -> Effects {
    Effects { persist: false, spawn_driver: false, announce: None }
}

/// Only a save of the session state.
pub open spec fn persist_only() -> Effects {
    Effects { persist: true, spawn_driver: false, announce: None }
}

/// Sets the session running, seeding an exhausted phase with its full
/// length, and starts a driver unless one is already active.
pub open spec fn activate(d: DriverState, c: PomodoroStateConfig) -> (
    DriverState,
    PomodoroStateConfig,
    Effects,
) {
    let seeded = PomodoroStateConfig {
        is_running: true,
        time_left: if c.time_left == 0 {
            c.duration_of(c.current_phase)
        } else {
            c.time_left
        },
        ..c
    };
    if d == DriverState::Stopped {
        (
            DriverState::Running,
            seeded,
            Effects { persist: seeded != c, spawn_driver: true, announce: Some(c.current_phase) },
        )
    } else {
        (d, seeded, Effects { persist: seeded != c, spawn_driver: false, announce: None })
    }
}

/// `start`: activates any session that is not idle.
pub open spec fn start_spec(d: DriverState, c: PomodoroStateConfig) -> (
    DriverState,
    PomodoroStateConfig,
    Effects,
) {
    if c.current_phase == Phase::Idle {
        (d, c, no_effects())
    } else {
        activate(d, c)
    }
}

/// `resume`: activates a paused session that is not idle.
pub open spec fn resume_spec(d: DriverState, c: PomodoroStateConfig) -> (
    DriverState,
    PomodoroStateConfig,
    Effects,
) {
    if c.is_running || c.current_phase == Phase::Idle {
        (d, c, no_effects())
    } else {
        activate(d, c)
    }
}

/// `pause`: stops the countdown where it is, and saves.
pub open spec fn pause_spec(d: DriverState, c: PomodoroStateConfig) -> (
    DriverState,
    PomodoroStateConfig,
    Effects,
) {
    (d, PomodoroStateConfig { is_running: false, ..c }, persist_only())
}

/// `reset_progress`: back to the start of the first work phase, stopped.
pub open spec fn reset_progress_spec(d: DriverState, c: PomodoroStateConfig) -> (
    DriverState,
    PomodoroStateConfig,
    Effects,
) {
    (
        d,
        PomodoroStateConfig {
            current_cycle: 0,
            current_phase: Phase::Work,
            time_left: c.work_duration,
            is_running: false,
            ..c
        },
        persist_only(),
    )
}

/// `reset`: every field back to its default.
pub open spec fn reset_spec(d: DriverState, c: PomodoroStateConfig) -> (
    DriverState,
    PomodoroStateConfig,
    Effects,
) {
    (d, PomodoroStateConfig::defaults(), persist_only())
}

/// One second of the driver. It stops when the session is paused, idle or
/// exhausted; otherwise it ticks, and when a phase ends it hands back the
/// state the tick left (no time left) for saving, seeds the next phase with
/// its full length and goes on, unless the session went idle.
pub open spec fn step_spec(d: DriverState, c: PomodoroStateConfig) -> (
    DriverState,
    PomodoroStateConfig,
    Step,
) {
    if d == DriverState::Stopped {
        (d, c, Step { exhausted: None, persist: false, announce: None, keep_running: false })
    } else if !c.is_running || c.current_phase == Phase::Idle || c.time_left == 0 {
        (DriverState::Stopped, c, Step { exhausted: None, persist: false, announce: None, keep_running: false })
    } else {
        let (t, entered) = tick_spec(c);
        match entered {
            None => (DriverState::Running, t, Step { exhausted: None, persist: true, announce: None, keep_running: true }),
            Some(p) => if p == Phase::Idle {
                (DriverState::Stopped, t, Step { exhausted: None, persist: true, announce: Some(p), keep_running: false })
            } else {
                (
                    DriverState::Running,
                    PomodoroStateConfig { time_left: t.duration_of(p), ..t },
                    Step { exhausted: Some(t), persist: true, announce: Some(p), keep_running: true },
                )
            },
        }
    }
}

impl PomodoroHandle {
    /// A handle with no driver active.
    pub fn new() -> (r: Self)
        ensures
            r.driver == DriverState::Stopped,
    {
        PomodoroHandle { driver: DriverState::Stopped }
    }

    fn activate(&mut self, config: &mut PomodoroStateConfig) -> (e: Effects)
        requires
            old(config).wf(),
            old(config).current_phase != Phase::Idle,
        ensures
            (final(self).driver, *final(config), e) == activate(old(self).driver, *old(config)),
            final(config).wf(),
    {
        let before = *config;
        config.is_running = true;
        if config.time_left == 0 {
            config.time_left = config.phase_duration(config.current_phase);
        }
        let persist = *config != before;
        if self.driver == DriverState::Stopped {
            self.driver = DriverState::Running;
            Effects { persist, spawn_driver: true, announce: Some(before.current_phase) }
        } else {
            Effects { persist, spawn_driver: false, announce: None }
        }
    }

    /// Starts the countdown of the current phase. A second driver is never
    /// started while one is active; an idle session is left as it is.
    pub fn start(&mut self, config: &mut PomodoroStateConfig) -> (e: Effects)
        requires
            old(config).wf(),
        ensures
            (final(self).driver, *final(config), e) == start_spec(old(self).driver, *old(config)),
            final(config).wf(),
    {
        if config.current_phase == Phase::Idle {
            return Effects { persist: false, spawn_driver: false, announce: None };
        }
        self.activate(config)
    }

    /// Stops the countdown without touching the remaining time.
    pub fn pause(&mut self, config: &mut PomodoroStateConfig) -> (e: Effects)
        requires
            old(config).wf(),
        ensures
            (final(self).driver, *final(config), e) == pause_spec(old(self).driver, *old(config)),
            final(config).wf(),
    {
        config.is_running = false;
        Effects { persist: true, spawn_driver: false, announce: None }
    }

    /// Restarts a paused countdown at its remaining time.
    pub fn resume(&mut self, config: &mut PomodoroStateConfig) -> (e: Effects)
        requires
            old(config).wf(),
        ensures
            (final(self).driver, *final(config), e) == resume_spec(old(self).driver, *old(config)),
            final(config).wf(),
    {
        if config.is_running || config.current_phase == Phase::Idle {
            return Effects { persist: false, spawn_driver: false, announce: None };
        }
        self.activate(config)
    }

    /// Clears the progress through the cycle.
    pub fn reset_progress(&mut self, config: &mut PomodoroStateConfig) -> (e: Effects)
        requires
            old(config).wf(),
        ensures
            (final(self).driver, *final(config), e) == reset_progress_spec(
                old(self).driver,
                *old(config),
            ),
            final(config).wf(),
    {
        config.reset_mut();
        Effects { persist: true, spawn_driver: false, announce: None }
    }

    /// Restores the default configuration.
    pub fn reset(&mut self, config: &mut PomodoroStateConfig) -> (e: Effects)
        ensures
            (final(self).driver, *final(config), e) == reset_spec(old(self).driver, *old(config)),
            final(config).wf(),
    {
        config.reset();
        Effects { persist: true, spawn_driver: false, announce: None }
    }

    /// One second of the countdown driver, run under exclusive access to the
    /// session state.
    pub fn step(&mut self, config: &mut PomodoroStateConfig) -> (s: Step)
        requires
            old(config).wf(),
        ensures
            (final(self).driver, *final(config), s) == step_spec(old(self).driver, *old(config)),
            final(config).wf(),
    {
        if self.driver == DriverState::Stopped {
            return Step { exhausted: None, persist: false, announce: None, keep_running: false };
        }
        if !config.is_running || config.current_phase == Phase::Idle || config.time_left == 0 {
            self.driver = DriverState::Stopped;
            return Step { exhausted: None, persist: false, announce: None, keep_running: false };
        }
        match tick(config) {
            None => Step { exhausted: None, persist: true, announce: None, keep_running: true },
            Some(p) => {
                if p == Phase::Idle {
                    self.driver = DriverState::Stopped;
                    Step { exhausted: None, persist: true, announce: Some(p), keep_running: false }
                } else {
                    let exhausted = *config;
                    config.time_left = config.phase_duration(p);
                    Step { exhausted: Some(exhausted), persist: true, announce: Some(p), keep_running: true }
                }
            },
        }
    }
}

/// Completing a phase of a valid session after work always counts one more
/// completed cycle; an idle session stays idle with its count unchanged.
pub proof fn lemma_advance_after_work(c: PomodoroStateConfig)
    requires
        c.wf(),
    ensures
        c.current_phase == Phase::Work ==> cycle_after(c) == c.current_cycle + 1,
        c.current_phase == Phase::Idle ==> phase_after(c) == Phase::Idle && cycle_after(c)
            == c.current_cycle,
        advanced(c).wf(),
{
}

/// Pausing twice is pausing once: the second pause changes nothing, leaves
/// the session stopped with its remaining time, and carries out nothing but
/// the one save that every pause makes.
pub proof fn lemma_pause_idempotent(d: DriverState, c: PomodoroStateConfig)
    ensures
        ({
            let (d1, c1, e1) = pause_spec(d, c);
            let (d2, c2, e2) = pause_spec(d1, c1);
            &&& d2 == d1 && c2 == c1
            &&& !c2.is_running
            &&& c2.time_left == c.time_left
            &&& e1 == persist_only()
            &&& e2 == persist_only()
        }),
{
}

/// Starting twice in a row leaves exactly one driver active on a session
/// that is not idle: only the first start may spawn one, and it does so
/// exactly when none was active.
pub proof fn lemma_start_twice_one_driver(d: DriverState, c: PomodoroStateConfig)
    requires
        c.wf(),
    ensures
        ({
            let (d1, c1, e1) = start_spec(d, c);
            let (d2, c2, e2) = start_spec(d1, c1);
            &&& !e2.spawn_driver
            &&& d2 == d1 && c2 == c1
            &&& (e1.spawn_driver <==> d == DriverState::Stopped && c.current_phase != Phase::Idle)
            &&& (c.current_phase != Phase::Idle ==> d2 == DriverState::Running)
        }),
{
}

/// One driver step takes at most one second off the current phase: unless
/// the phase changes, the remaining time drops by one or stays.
pub proof fn lemma_step_single_decrement(d: DriverState, c: PomodoroStateConfig)
    requires
        c.wf(),
    ensures
        ({
            let (d1, c1, s) = step_spec(d, c);
            c1.current_phase == c.current_phase ==> c1.time_left == c.time_left || c1.time_left
                == c.time_left - 1
        }),
{
}

/// The driver state and session state after `n` driver steps.
pub open spec fn run_steps(d: DriverState, c: PomodoroStateConfig, n: nat) -> (
    DriverState,
    PomodoroStateConfig,
)
    decreases n,
{
    if n == 0 {
        (d, c)
    } else {
        let (d1, c1) = run_steps(d, c, (n - 1) as nat);
        let (d2, c2, s) = step_spec(d1, c1);
        (d2, c2)
    }
}

proof fn lemma_countdown(d: DriverState, c: PomodoroStateConfig, n: nat)
    requires
        c.wf(),
        c.is_running,
        c.current_phase != Phase::Idle,
        d == DriverState::Running,
        n < c.time_left,
    ensures
        run_steps(d, c, n) == (DriverState::Running, PomodoroStateConfig {
            time_left: (c.time_left - n) as u32,
            ..c
        }),
    decreases n,
{
    if n > 0 {
        lemma_countdown(d, c, (n - 1) as nat);
    }
}

/// A running phase with `t` seconds left lasts `t` driver steps: for fewer
/// steps it counts down by one a step, and the step that exhausts it enters
/// the next phase of the cycle, seeded with that phase's full length (or
/// stops the driver when the session went idle).
pub proof fn lemma_phase_lasts_its_time(d: DriverState, c: PomodoroStateConfig)
    requires
        c.wf(),
        c.is_running,
        c.current_phase != Phase::Idle,
        c.time_left > 0,
        d == DriverState::Running,
    ensures
        forall|n: nat|
            n < c.time_left ==> #[trigger] run_steps(d, c, n) == (
                DriverState::Running,
                PomodoroStateConfig { time_left: (c.time_left - n) as u32, ..c },
            ),
        ({
            let (d2, c2) = run_steps(d, c, c.time_left as nat);
            &&& c2.current_phase == phase_after(c)
            &&& c2.current_cycle == cycle_after(c)
            &&& c2.wf()
            &&& phase_after(c) != Phase::Idle ==> d2 == DriverState::Running && c2.is_running
                && c2.time_left == c.duration_of(phase_after(c))
            &&& phase_after(c) == Phase::Idle ==> d2 == DriverState::Stopped && !c2.is_running
        }),
{
    assert forall|n: nat| n < c.time_left implies #[trigger] run_steps(d, c, n) == (
        DriverState::Running,
        PomodoroStateConfig { time_left: (c.time_left - n) as u32, ..c },
    ) by {
        lemma_countdown(d, c, n);
    }
    lemma_countdown(d, c, (c.time_left - 1) as nat);
}

/// The step that exhausts a phase always saves, first, the state the tick
/// left: the next phase with no time left.
pub proof fn lemma_exhausted_state_saved(d: DriverState, c: PomodoroStateConfig)
    requires
        c.wf(),
    ensures
        ({
            let (d1, c1, s) = step_spec(d, c);
            s.announce matches Some(p) ==> {
                let first = match s.exhausted {
                    Some(x) => x,
                    None => c1,
                };
                &&& s.persist
                &&& first == tick_spec(c).0
                &&& first.time_left == 0
                &&& first.current_phase == p
            }
        }),
{
}

} // verus!
