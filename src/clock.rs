use vstd::prelude::*;

verus! {

/// Nanoseconds in one second.
pub const NANOS_PER_SECOND: u128 = 1_000_000_000;

/// The time from tick `start` to tick `end` of a counter that advances
/// `frequency` ticks per second, in whole nanoseconds (rounded down). `None`
/// when the frequency is not positive, that is when the counter is
/// unavailable; a counter that ran backwards counts as no time.
pub open spec fn elapsed_nanos_of(start: int, end: int, frequency: int) -> Option<int> {
    if frequency <= 0 {
        None
    } else if end <= start {
        Some(0)
    } else {
        Some((end - start) * 1_000_000_000 / frequency)
    }
}

/// The tick a clock returns when its latest tick is `last` and the counter
/// reads `raw`: the reading, unless it lies behind `last`.
pub open spec fn tick_after(last: int, raw: int) -> int {
    if raw >= last {
        raw
    } else {
        last
    }
}

/// Readings of a monotonic tick counter, taken from the start of a run.
///
/// Raw readings are handed in by the caller; the clock never lets its latest
/// tick fall behind an earlier one, so the time it reports is never negative.
pub struct Clock {
    start: i64,
    last: i64,
    frequency: i64,
}

impl Clock {
    pub closed spec fn start_spec(&self) -> int {
        self.start as int
    }

    pub closed spec fn last_spec(&self) -> int {
        self.last as int
    }

    pub closed spec fn frequency_spec(&self) -> int {
        self.frequency as int
    }

    /// The clock's readings never go back.
    pub open spec fn wf(&self) -> bool {
        self.start_spec() <= self.last_spec()
    }

    /// Starts the clock at the raw reading `tick` of a counter that advances
    /// `frequency` ticks per second.
    pub fn start(tick: i64, frequency: i64) -> (r: Clock)
        ensures
            r.wf(),
            r.start_spec() == tick,
            r.last_spec() == tick,
            r.frequency_spec() == frequency,
    {
        Clock { start: tick, last: tick, frequency }
    }

    /// Takes the raw reading `tick` and returns the clock's current tick: the
    /// reading, or the latest earlier tick where the reading lies behind it.
    pub fn now(&mut self, tick: i64) -> (r: i64)
        requires
            old(self).wf(),
        ensures
            final(self).wf(),
            r == tick_after(old(self).last_spec(), tick as int),
            final(self).last_spec() == r,
            final(self).start_spec() == old(self).start_spec(),
            final(self).frequency_spec() == old(self).frequency_spec(),
    {
        if tick > self.last {
            self.last = tick;
        }
        self.last
    }

    /// The tick at which the clock was started.
    pub fn start_tick(&self) -> (r: i64)
        ensures
            r == self.start_spec(),
    {
        self.start
    }

    /// The latest tick the clock has returned.
    pub fn last_tick(&self) -> (r: i64)
        ensures
            r == self.last_spec(),
    {
        self.last
    }

    /// Ticks per second of the underlying counter.
    pub fn frequency(&self) -> (r: i64)
        ensures
            r == self.frequency_spec(),
    {
        self.frequency
    }

    /// Time from the start to the latest tick, in nanoseconds; `None` when
    /// the counter's frequency is unavailable.
    pub fn elapsed_nanos(&self) -> (r: Option<u128>)
        requires
            self.wf(),
        ensures
            r == (match elapsed_nanos_of(self.start_spec(), self.last_spec(), self.frequency_spec()) {
                Some(n) => Some(n as u128),
                None => None::<u128>,
            }),
    {
        if self.frequency <= 0 {
            return None;
        }
        let ticks: u128 = (self.last as i128 - self.start as i128) as u128;
        assert(ticks * 1_000_000_000 <= 0x1_0000_0000_0000_0000 * 1_000_000_000) by (nonlinear_arith)
            requires
                ticks < 0x1_0000_0000_0000_0000,
        ;
        let scaled: u128 = ticks * NANOS_PER_SECOND;
        Some(scaled / (self.frequency as u128))
    }
}

/// Two readings in a row through a clock never go back: the second tick
/// returned is at least the first, and the first at least the clock's latest
/// tick before them, whatever the raw readings were.
pub proof fn lemma_now_monotonic(last: int, first: int, second: int)
    ensures
        tick_after(last, first) >= last,
        tick_after(tick_after(last, first), second) >= tick_after(last, first),
{
}

} // verus!
