use vstd::prelude::*;

verus! {

/// The parameters of a scheduling policy, as the kernel's `sched_param`.
#[derive(Clone, Copy, Debug, PartialEq, Eq, Structural)]
pub struct Parameters {
    pub sched_priority: i32,
}

impl Default for Parameters {
    fn default() -> (r: Parameters)
        ensures
            r.sched_priority == 0,
    {
        Parameters { sched_priority: 0 }
    }
}

} // verus!
