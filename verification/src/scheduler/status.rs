use vstd::prelude::*;
use core::convert::TryFrom;
use crate::scheduler::errors::{spec_error_from_code, SchedulerError};
use crate::scheduler::policy::{spec_policy_from_number, spec_policy_number, Policy};

verus! {

/// What a failing scheduler call reports: some `errno` value, never an
/// unknown policy.
pub open spec fn is_errno_error(e: SchedulerError) -> bool {
    exists|code: i32| e == spec_error_from_code(code)
}

/// Interprets the return value of a scheduler system call that reports
/// failure as `-1` and sets `errno`.
pub fn status_to_result(ret: i64) -> (r: Result<(), SchedulerError>)
    ensures
        r is Ok <==> ret != -1,
        r matches Err(e) ==> is_errno_error(e) && !(e is UnknownPolicy),
{
    if ret == -1 {
        Err(SchedulerError::from_errno())
    } else {
        Ok(())
    }
}

/// The result that `sched_getscheduler` stands for, given its return value
/// and, for `-1`, the `errno` it set.
pub open spec fn spec_policy_result(ret: i32) -> Result<Policy, SchedulerError> {
    match spec_policy_from_number(ret as u8) {
        Some(p) => Ok(p),
        None => Err(SchedulerError::UnknownPolicy(ret)),
    }
}

/// A return value whose low byte is the kernel's number of a policy reads
/// as that policy; any other value reads as an unknown policy carrying the
/// value itself.
pub proof fn lemma_policy_result(ret: i32)
    ensures
        forall|p: Policy| (ret as u8) == spec_policy_number(p) ==> spec_policy_result(ret) == Ok::<
            Policy,
            SchedulerError,
        >(p),
        (forall|p: Policy| (ret as u8) != spec_policy_number(p)) ==> spec_policy_result(ret) == Err::<
            Policy,
            SchedulerError,
        >(SchedulerError::UnknownPolicy(ret)),
        spec_policy_result(ret) matches Ok(p) ==> (ret as u8) == spec_policy_number(p),
{
    let b = #[verifier::truncate] (ret as u8);
    if forall|p: Policy| b != spec_policy_number(p) {
        assert(b != spec_policy_number(Policy::Other));
        assert(b != spec_policy_number(Policy::Fifo));
        assert(b != spec_policy_number(Policy::Rr));
        assert(b != spec_policy_number(Policy::Batch));
        assert(b != spec_policy_number(Policy::Idle));
        assert(b != spec_policy_number(Policy::Deadline));
        assert(spec_policy_from_number(b) is None);
    }
    assert forall|p: Policy| (ret as u8) == spec_policy_number(p) implies spec_policy_result(ret)
        == Ok::<Policy, SchedulerError>(p) by {
        crate::scheduler::policy::lemma_policy_round_trips(p);
    }
}

/// Interprets the return value of `sched_getscheduler`: `-1` is a failure
/// with `errno`; another value is the policy's number, taken as a byte.
pub fn policy_from_status(ret: i32) -> (r: Result<Policy, SchedulerError>)
    ensures
        ret == -1 ==> (r matches Err(e) && is_errno_error(e) && !(e is UnknownPolicy)),
        ret != -1 ==> r == spec_policy_result(ret),
{
    if ret == -1 {
        Err(SchedulerError::from_errno())
    } else {
        match Policy::try_from(ret as u8) {
            Ok(p) => Ok(p),
            Err(_) => Err(SchedulerError::UnknownPolicy(ret)),
        }
    }
}

} // verus!
