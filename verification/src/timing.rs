use vstd::prelude::*;

verus! {

/// Nanoseconds per 60 Hz timer tick, rounded up so a tick never comes
/// more often than once per 1/60 second of elapsed wall-clock time.
pub const TICK_NS: u64 = 16_666_667;

/// Nanoseconds per second.
pub const SECOND_NS: u64 = 1_000_000_000;

/// The 60 Hz clock behind the two hardware timers: it accumulates elapsed
/// wall-clock time and says how many ticks are due, irrespective of how
/// many instructions ran meanwhile.
pub struct TimerClock {
    /// Elapsed time not yet paid out as ticks; always below one tick.
    pub acc_ns: u64,
}

impl TimerClock {
    /// Well-formedness: the accumulator holds less than one tick.
    pub open spec fn wf(&self) -> bool {
        self.acc_ns < TICK_NS
    }

    /// A clock with nothing accumulated.
    pub fn new() -> (c: TimerClock)
        ensures
            c.acc_ns == 0,
            c.wf(),
    {
        TimerClock { acc_ns: 0 }
    }

    /// Accounts `elapsed_ns` more nanoseconds of wall-clock time and
    /// returns how many whole 60 Hz ticks are now due; the remainder
    /// stays accumulated. Zero elapsed time yields zero ticks.
    pub fn advance(&mut self, elapsed_ns: u64) -> (ticks: u64)
        requires
            old(self).wf(),
            elapsed_ns <= u64::MAX - TICK_NS,
        ensures
            final(self).wf(),
            ticks == (old(self).acc_ns + elapsed_ns) / (TICK_NS as int),
            final(self).acc_ns == (old(self).acc_ns + elapsed_ns) % (TICK_NS as int),
    {
        let total = self.acc_ns + elapsed_ns;
        self.acc_ns = total % TICK_NS;
        total / TICK_NS
    }
}

/// The real-time driver's bookkeeping: how many instruction cycles and
/// how many timer ticks are due after a stretch of elapsed wall-clock
/// time. Each rate draws on its own accumulated budget; neither is
/// coupled to the other's progress.
pub struct Scheduler {
    /// The 60 Hz tick budget.
    pub clock: TimerClock,
    /// Elapsed time not yet paid out as instruction cycles; always below
    /// one cycle period.
    pub cycle_acc_ns: u64,
    /// Nanoseconds per instruction cycle, fixed at construction.
    pub cycle_period_ns: u64,
    /// Whether the loop is started; a paused scheduler owes nothing.
    pub running: bool,
}

impl Scheduler {
    /// Well-formedness: both budgets hold less than one period.
    pub open spec fn wf(&self) -> bool {
        &&& self.clock.wf()
        &&& self.cycle_period_ns >= 1
        &&& self.cycle_period_ns <= SECOND_NS
        &&& self.cycle_acc_ns < self.cycle_period_ns
    }

    /// A paused scheduler that will run instructions at the given rate.
    pub fn new(cycles_per_second: u32) -> (s: Scheduler)
        requires
            1 <= cycles_per_second <= SECOND_NS,
        ensures
            s.wf(),
            s.cycle_period_ns == SECOND_NS as int / cycles_per_second as int,
            s.cycle_acc_ns == 0,
            s.clock.acc_ns == 0,
            !s.running,
    {
        proof {
            vstd::arithmetic::div_mod::lemma_div_non_zero(
                SECOND_NS as int,
                cycles_per_second as int,
            );
            vstd::arithmetic::div_mod::lemma_div_nonincreasing(
                SECOND_NS as int,
                cycles_per_second as int,
            );
        }
        Scheduler {
            clock: TimerClock::new(),
            cycle_acc_ns: 0,
            cycle_period_ns: SECOND_NS / cycles_per_second as u64,
            running: false,
        }
    }

    /// Starts the loop.
    pub fn start(&mut self)
        ensures
            *final(self) == (Scheduler { running: true, ..*old(self) }),
    {
        self.running = true;
    }

    /// Pauses the loop; nothing more is owed until it is started again.
    pub fn pause(&mut self)
        ensures
            *final(self) == (Scheduler { running: false, ..*old(self) }),
    {
        self.running = false;
    }

    /// Forgets all accumulated time and pauses, keeping the configured
    /// rate.
    pub fn reset(&mut self)
        requires
            old(self).wf(),
        ensures
            final(self).wf(),
            final(self).cycle_period_ns == old(self).cycle_period_ns,
            final(self).cycle_acc_ns == 0,
            final(self).clock.acc_ns == 0,
            !final(self).running,
    {
        self.clock = TimerClock::new();
        self.cycle_acc_ns = 0;
        self.running = false;
    }

    /// Accounts `elapsed_ns` more nanoseconds and returns how many
    /// instruction cycles and how many timer ticks are due, each from its
    /// own budget. A paused scheduler accumulates nothing and owes
    /// nothing; zero elapsed time yields zero ticks either way.
    pub fn advance(&mut self, elapsed_ns: u64) -> (due: (u64, u64))
        requires
            old(self).wf(),
            elapsed_ns <= u64::MAX - SECOND_NS,
        ensures
            final(self).wf(),
            !old(self).running ==> due == (0u64, 0u64) && *final(self) == *old(self),
            old(self).running ==> {
                &&& due.0 == (old(self).cycle_acc_ns + elapsed_ns) / (
                old(self).cycle_period_ns as int)
                &&& due.1 == (old(self).clock.acc_ns + elapsed_ns) / (TICK_NS as int)
                &&& final(self).cycle_acc_ns == (old(self).cycle_acc_ns + elapsed_ns) % (
                old(self).cycle_period_ns as int)
                &&& final(self).clock.acc_ns == (old(self).clock.acc_ns + elapsed_ns) % (
                TICK_NS as int)
                &&& final(self).cycle_period_ns == old(self).cycle_period_ns
                &&& final(self).running
            },
    {
        if !self.running {
            return (0, 0);
        }
        let total_cycles = self.cycle_acc_ns + elapsed_ns;
        self.cycle_acc_ns = total_cycles % self.cycle_period_ns;
        let cycles = total_cycles / self.cycle_period_ns;
        let ticks = self.clock.advance(elapsed_ns);
        (cycles, ticks)
    }
}

} // verus!
