use vstd::prelude::*;

verus! {

/// `EPERM` of the Linux error numbers.
pub const EPERM: i32 = 1;
/// `ESRCH` of the Linux error numbers.
pub const ESRCH: i32 = 3;
/// `EINVAL` of the Linux error numbers.
pub const EINVAL: i32 = 22;

/// Why a scheduling request to the kernel failed.
#[derive(Debug, Clone, Copy, PartialEq, Eq, Structural)]
pub enum SchedulerError {
    InvalidArgs,
    Permissions,
    NotFound,
    Other,
    UnknownPolicy(i32),
}

/// The error that an `errno` value stands for.
pub open spec fn spec_error_from_code(code: i32) -> SchedulerError {
    if code == EINVAL {
        SchedulerError::InvalidArgs
    } else if code == EPERM {
        SchedulerError::Permissions
    } else if code == ESRCH {
        SchedulerError::NotFound
    } else {
        SchedulerError::Other
    }
}

/// Reads the calling thread's `errno`, through `errno::errno`.
/// Nothing is promised of the value: it is whatever the last failing
/// system call of this thread left there.
#[verifier::external_body]
fn last_os_error_code() -> (code: i32) {
    errno::errno().0
}

impl SchedulerError {
    /// The error that an `errno` value stands for.
    pub fn from_code(code: i32) -> (r: SchedulerError)
        ensures
            r == spec_error_from_code(code),
    {
        if code == EINVAL {
            SchedulerError::InvalidArgs
        } else if code == EPERM {
            SchedulerError::Permissions
        } else if code == ESRCH {
            SchedulerError::NotFound
        } else {
            SchedulerError::Other
        }
    }

    /// The error that the calling thread's current `errno` stands for.
    pub fn from_errno() -> (r: SchedulerError)
        ensures
            exists|code: i32| r == spec_error_from_code(code),
            !(r is UnknownPolicy),
    {
        let code = last_os_error_code();
        SchedulerError::from_code(code)
    }
}

} // verus!
