use vstd::prelude::*;

verus! {

/// The shortest interval, in nanoseconds, that is handed to the midend as one
/// timer step. Shorter steps are not accumulated correctly by the midend, so the
/// timer waits until at least this much time has gone by.
pub const TICK_INTERVAL_NANOS: u64 = 10_000_000;

/// Time that has passed from `start` to `now` on a monotonic clock, in
/// nanoseconds; a reading earlier than `start` counts as no time at all.
pub open spec fn elapsed_since(start: u64, now: u64) -> u64 {
    if now >= start { (now - start) as u64 } else { 0 }
}

/// What a tick at clock reading `now` does to a timer that is `active` with
/// reference point `start`: the step it reports, if any, and the new reference
/// point. A step is due when at least one tick interval has passed.
pub open spec fn tick_spec(active: bool, start: u64, now: u64) -> (Option<u64>, u64) {
    let el = elapsed_since(start, now);
    if active && el >= TICK_INTERVAL_NANOS {
        (Some(el), now)
    } else {
        (None, start)
    }
}

/// Ticks a running timer at each of `readings` in turn, from reference point
/// `start`: the total length of the steps reported, and the final reference
/// point.
pub open spec fn run_ticks(start: u64, readings: Seq<u64>) -> (int, u64)
    decreases readings.len(),
{
    if readings.len() == 0 {
        (0, start)
    } else {
        let (total, s) = run_ticks(start, readings.drop_last());
        match tick_spec(true, s, readings.last()).0 {
            Some(step) => (total + step, readings.last()),
            None => (total, s),
        }
    }
}

/// A running timer ticked at clock readings that never go back loses no time
/// and counts none twice: the steps it reports add up to exactly how far its
/// reference point has moved.
pub proof fn lemma_steps_add_up(start: u64, readings: Seq<u64>)
    requires
        forall|i: int| 0 <= i < readings.len() ==> start <= #[trigger] readings[i],
        forall|i: int, j: int| 0 <= i <= j < readings.len() ==> readings[i] <= readings[j],
    ensures
        start <= run_ticks(start, readings).1,
        run_ticks(start, readings).0 == run_ticks(start, readings).1 - start,
        readings.len() > 0 ==> run_ticks(start, readings).1 <= readings.last(),
    decreases readings.len(),
{
    if readings.len() > 0 {
        let prefix = readings.drop_last();
        lemma_steps_add_up(start, prefix);
        if prefix.len() > 0 {
            assert(prefix.last() == readings[readings.len() - 2]);
        }
    }
}

/// A stopped timer reports no step and keeps its reference point, whatever
/// the clock says; a running one reports a step of the whole elapsed time as
/// soon as a tick interval has passed, and measures the next from there.
pub proof fn lemma_tick_cases(start: u64, now: u64)
    ensures
        tick_spec(false, start, now) == (None::<u64>, start),
        now >= start + TICK_INTERVAL_NANOS ==> tick_spec(true, start, now) == (Some((now - start) as u64), now),
        now < start + TICK_INTERVAL_NANOS ==> tick_spec(true, start, now) == (None::<u64>, start),
{
}

/// The animation timer that the midend switches on and off.
///
/// Times are readings of a monotonic clock in nanoseconds, supplied by the caller.
pub struct Timer {
    active: bool,
    start: u64,
}

impl Timer {
    /// Whether the midend currently wants timer steps.
    pub closed spec fn spec_active(&self) -> bool {
        self.active
    }

    /// The clock reading from which the next step is measured.
    pub closed spec fn spec_start(&self) -> u64 {
        self.start
    }

    /// A stopped timer whose reference point is `now`.
    pub fn new(now: u64) -> (t: Timer)
        ensures
            !t.spec_active(),
            t.spec_start() == now,
    {
        Timer { active: false, start: now }
    }

    /// Starts the timer: steps are measured from `now` on.
    pub fn activate(&mut self, now: u64)
        ensures
            final(self).spec_active(),
            final(self).spec_start() == now,
    {
        self.start = now;
        self.active = true;
    }

    /// Stops the timer; the reference point is kept.
    pub fn deactivate(&mut self)
        ensures
            !final(self).spec_active(),
            final(self).spec_start() == old(self).spec_start(),
    {
        self.active = false;
    }

    /// Whether the timer is running.
    pub fn is_active(&self) -> (b: bool)
        ensures
            b == self.spec_active(),
    {
        self.active
    }

    /// Decides whether a timer step is due at clock reading `now`.
    ///
    /// When the timer runs and at least [`TICK_INTERVAL_NANOS`] have passed since
    /// its reference point, the step length is returned and the reference point
    /// moves to `now`; otherwise nothing happens.
    pub fn tick(&mut self, now: u64) -> (step: Option<u64>)
        ensures
            step == tick_spec(old(self).spec_active(), old(self).spec_start(), now).0,
            final(self).spec_start() == tick_spec(old(self).spec_active(), old(self).spec_start(), now).1,
            final(self).spec_active() == old(self).spec_active(),
    {
        let el = if now >= self.start { now - self.start } else { 0 };
        if self.active && el >= TICK_INTERVAL_NANOS {
            self.start = now;
            Some(el)
        } else {
            None
        }
    }

    /// How long the event loop may sleep before the timer needs attention:
    /// one tick interval while the timer runs, indefinitely otherwise.
    pub fn wake_interval(&self) -> (w: Option<u64>)
        ensures
            w == (if self.spec_active() { Some(TICK_INTERVAL_NANOS) } else { None::<u64> }),
    {
        if self.active {
            Some(TICK_INTERVAL_NANOS)
        } else {
            None
        }
    }
}

} // verus!
