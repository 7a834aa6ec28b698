use vstd::prelude::*;

verus! {

/// Default length of a work phase, in seconds.
pub const DEFAULT_WORK_DURATION: u32 = 1500;

/// Default length of a short break, in seconds.
pub const DEFAULT_BREAK_DURATION: u32 = 300;

/// Default length of a long break, in seconds.
pub const DEFAULT_LONG_BREAK_DURATION: u32 = 600;

/// Default number of work cycles before the session goes idle.
pub const DEFAULT_CYCLES: u32 = 4;

/// Default spacing of long breaks, in completed work cycles.
pub const DEFAULT_LONG_BREAK_INTERVAL: u32 = 2;

/// A configuration handed to the session that breaks its invariant.
#[derive(Clone, Copy, Debug, PartialEq, Eq, Structural)]
pub struct ValidationError {}

/// One segment of the focus cycle. `Idle` is terminal.
#[derive(Clone, Copy, Debug, PartialEq, Eq, Structural)]
pub enum Phase {
    Work,
    ShortBreak,
    LongBreak,
    Idle,
}

/// The durable session state: the configured durations and the progress
/// through the cycle.
#[derive(Clone, Copy, Debug, PartialEq, Eq, Structural)]
pub struct PomodoroStateConfig {
    pub work_duration: u32,
    pub break_duration: u32,
    pub long_break_duration: u32,
    pub cycles: u32,
    pub current_cycle: u32,
    pub is_running: bool,
    pub long_break_interval: u32,
    pub time_left: u32,
    pub current_phase: Phase,
}

/// The largest of three durations.
pub open spec fn max3(a: u32, b: u32, c: u32) -> u32 {
    if a >= b && a >= c {
        a
    } else if b >= c {
        b
    } else {
        c
    }
}

impl PomodoroStateConfig {
    /// The configuration a new session starts from.
    pub open spec fn defaults() -> PomodoroStateConfig {
        PomodoroStateConfig {
            work_duration: DEFAULT_WORK_DURATION,
            break_duration: DEFAULT_BREAK_DURATION,
            long_break_duration: DEFAULT_LONG_BREAK_DURATION,
            cycles: DEFAULT_CYCLES,
            current_cycle: 0,
            is_running: true,
            long_break_interval: DEFAULT_LONG_BREAK_INTERVAL,
            time_left: DEFAULT_WORK_DURATION,
            current_phase: Phase::Work,
        }
    }

    /// All durations, the cycle count and the long-break interval are positive.
    pub open spec fn settings_valid(self) -> bool {
        &&& self.work_duration > 0
        &&& self.break_duration > 0
        &&& self.long_break_duration > 0
        &&& self.cycles > 0
        &&& self.long_break_interval > 0
    }

    /// The longest configured phase.
    pub open spec fn max_duration(self) -> u32 {
        max3(self.work_duration, self.break_duration, self.long_break_duration)
    }

    /// The configured length of phase `p` (an idle session has none).
    pub open spec fn duration_of(self, p: Phase) -> u32 {
        match p {
            Phase::Work => self.work_duration,
            Phase::ShortBreak => self.break_duration,
            Phase::LongBreak => self.long_break_duration,
            Phase::Idle => 0,
        }
    }

    /// The session invariant: valid settings, a cycle count within bounds
    /// (a work phase always has a cycle left to complete), no running idle
    /// session, and a remaining time no longer than the longest phase.
    pub open spec fn wf(self) -> bool {
        &&& self.settings_valid()
        &&& self.current_cycle <= self.cycles
        &&& (self.current_phase == Phase::Work ==> self.current_cycle < self.cycles)
        &&& (self.current_phase == Phase::Idle ==> !self.is_running)
        &&& self.time_left <= self.max_duration()
    }

    /// A fresh configuration with the default durations, at the start of the
    /// first work phase.
    pub fn new() -> (r: Self)
        ensures
            r == Self::defaults(),
            r.wf(),
    {
        PomodoroStateConfig {
            work_duration: DEFAULT_WORK_DURATION,
            break_duration: DEFAULT_BREAK_DURATION,
            long_break_duration: DEFAULT_LONG_BREAK_DURATION,
            cycles: DEFAULT_CYCLES,
            current_cycle: 0,
            is_running: true,
            long_break_interval: DEFAULT_LONG_BREAK_INTERVAL,
            time_left: DEFAULT_WORK_DURATION,
            current_phase: Phase::Work,
        }
    }

    /// Whether this configuration may be adopted as the session state.
    pub fn is_valid(&self) -> (r: bool)
        ensures
            r == self.wf(),
    {
        let max = self.max_duration_exec();
        self.work_duration > 0 && self.break_duration > 0 && self.long_break_duration > 0
            && self.cycles > 0 && self.long_break_interval > 0
            && self.current_cycle <= self.cycles
            && (self.current_phase != Phase::Work || self.current_cycle < self.cycles)
            && (self.current_phase != Phase::Idle || !self.is_running)
            && self.time_left <= max
    }

    /// The longest configured phase.
    pub fn max_duration_exec(&self) -> (r: u32)
        ensures
            r == self.max_duration(),
    {
        let a = self.work_duration;
        let b = self.break_duration;
        let c = self.long_break_duration;
        if a >= b && a >= c {
            a
        } else if b >= c {
            b
        } else {
            c
        }
    }

    /// Clears the progress through the cycle: back to the start of the first
    /// work phase, stopped.
    pub fn reset_mut(&mut self)
        requires
            old(self).wf(),
        ensures
            *final(self) == (PomodoroStateConfig {
                current_cycle: 0,
                current_phase: Phase::Work,
                time_left: old(self).work_duration,
                is_running: false,
                ..*old(self)
            }),
            final(self).wf(),
    {
        self.current_cycle = 0;
        self.current_phase = Phase::Work;
        self.time_left = self.work_duration;
        self.is_running = false;
    }

    /// Restores every field to its default.
    pub fn reset(&mut self)
        ensures
            *final(self) == Self::defaults(),
    {
        *self = PomodoroStateConfig::new();
    }

    /// The state a session starts from, given what the store held: the
    /// defaults when it held nothing (they must then be saved, the `bool`),
    /// the stored state when it is valid, and an error otherwise.
    pub fn load_or_create(loaded: Option<Self>) -> (r: Result<(Self, bool), ValidationError>)
        ensures
            r == (match loaded {
                None => Ok((Self::defaults(), true)),
                Some(c) => if c.wf() {
                    Ok((c, false))
                } else {
                    Err(ValidationError {  })
                },
            }),
    {
        match loaded {
            None => Ok((PomodoroStateConfig::new(), true)),
            Some(c) => {
                if c.is_valid() {
                    Ok((c, false))
                } else {
                    Err(ValidationError {  })
                }
            },
        }
    }

    /// The configured length of phase `p`.
    pub fn phase_duration(&self, p: Phase) -> (r: u32)
        ensures
            r == self.duration_of(p),
    {
        match p {
            Phase::Work => self.work_duration,
            Phase::ShortBreak => self.break_duration,
            Phase::LongBreak => self.long_break_duration,
            Phase::Idle => 0,
        }
    }
}

/// A configuration with a zero duration, cycle count or long-break interval
/// is never valid, so it is never adopted in place of the session's.
pub proof fn lemma_zero_setting_rejected(c: PomodoroStateConfig)
    requires
        c.work_duration == 0 || c.break_duration == 0 || c.long_break_duration == 0 || c.cycles
            == 0 || c.long_break_interval == 0,
    ensures
        !c.wf(),
{
}

} // verus!
