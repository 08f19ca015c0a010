use vstd::prelude::*;
use crate::clock::{elapsed_nanos_of, tick_after, Clock};

verus! {

/// What a finished run yields: the child's exit code and how long it ran.
#[derive(Clone, Copy, Debug, PartialEq, Eq, Structural)]
pub struct ExecutionResult {
    /// The child's exit code (the termination code where it was stopped).
    pub exit_code: u32,
    /// Nanoseconds from launch to the end of the wait; `None` when the
    /// counter's frequency was unavailable.
    pub elapsed_nanos: Option<u128>,
}

/// Closes a run: takes the child's exit code and the clock's final raw
/// reading `end_tick`, and returns the result with the time elapsed since the
/// clock was started.
pub fn finalize(exit_code: u32, clock: &mut Clock, end_tick: i64) -> (r: ExecutionResult)
    requires
        old(clock).wf(),
    ensures
        final(clock).wf(),
        final(clock).start_spec() == old(clock).start_spec(),
        final(clock).frequency_spec() == old(clock).frequency_spec(),
        final(clock).last_spec() == tick_after(old(clock).last_spec(), end_tick as int),
        r.exit_code == exit_code,
        r.elapsed_nanos == (match elapsed_nanos_of(
            final(clock).start_spec(),
            final(clock).last_spec(),
            final(clock).frequency_spec(),
        ) {
            Some(n) => Some(n as u128),
            None => None::<u128>,
        }),
{
    clock.now(end_tick);
    ExecutionResult { exit_code, elapsed_nanos: clock.elapsed_nanos() }
}

} // verus!
