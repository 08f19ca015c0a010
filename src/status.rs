use vstd::prelude::*;

verus! {

/// Outcome of the tool itself, as shown to the operator and as process status.
#[derive(Clone, Copy, Debug, PartialEq, Eq, Structural)]
pub enum Status {
    SUCCESS,
    FAILURE,
}

impl Status {
    /// The status as an unsigned exit code, as handed to the call that
    /// terminates a child: 0 for success, 1 for failure.
    pub fn as_u32(self) -> (r: u32)
        ensures
            r == (if self == Status::SUCCESS { 0u32 } else { 1u32 }),
    {
        match self {
            Status::SUCCESS => 0,
            Status::FAILURE => 1,
        }
    }
}

/// The tool's own process exit status: 0 for success, -1 for failure.
impl From<Status> for i32 {
    fn from(status: Status) -> (r: i32) {
        match status {
            Status::SUCCESS => 0,
            Status::FAILURE => -1i32,
        }
    }
}

impl vstd::std_specs::convert::FromSpecImpl<Status> for i32 {
    open spec fn obeys_from_spec() -> bool {
        true
    }

    open spec fn from_spec(status: Status) -> i32 {
        match status {
            Status::SUCCESS => 0,
            Status::FAILURE => -1i32,
        }
    }
}

} // verus!
