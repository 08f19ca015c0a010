//! Launch a program, wait for it while staying responsive to an operator
//! interrupt, and report its exit code and running time.
//!
//! The library holds the decisions and the arithmetic of a run: the wide
//! command line handed to the system, the wait loop as a state machine, the
//! clock and the elapsed time, and the text of a launch error. The calls that
//! create, wait on and terminate the child are made by the caller, which feeds
//! their outcomes back in as plain values.
mod clock;
mod message;
mod poll;
mod report;
mod status;
mod wide;

pub use clock::{elapsed_nanos_of, lemma_now_monotonic, tick_after, Clock, NANOS_PER_SECOND};
pub use message::{
    is_space_unit, makelangid, no_description, os_error_text, os_launch_error, os_text_units,
    trim_units, trimmed, written_part, LaunchError,
};
pub use poll::{
    count_terminations, lemma_interrupt_seen_at_next_timeout, lemma_terminates_at_most_once,
    next_state, poll_action, run_actions, run_state, PollAction, PollEvent, PollState, Poller,
};
pub use report::{finalize, ExecutionResult};
pub use status::Status;
pub use wide::{console_title, launch_command, utf16_of, utf16_units, wide_nul_of};
