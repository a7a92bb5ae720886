use vstd::prelude::*;
use crate::target::{Id, Process, ProcessGroup, User};

verus! {

/// The `which` argument of `getpriority`/`setpriority` for a kind of target.
pub trait CpuPriority {
    fn what(&self) -> u32;
}

/// `PRIO_PROCESS`, `PRIO_PGRP` and `PRIO_USER` by kind of target.
pub open spec fn spec_cpu_which(id: Id) -> u32 {
    match id {
        Id::Process(_) => 0,
        Id::ProcessGroup(_) => 1,
        Id::User(_) => 2,
    }
}

impl CpuPriority for Process {
    fn what(&self) -> (r: u32)
        ensures
            r == 0,
    {
        0
    }
}

impl CpuPriority for ProcessGroup {
    fn what(&self) -> (r: u32)
        ensures
            r == 1,
    {
        1
    }
}

impl CpuPriority for User {
    fn what(&self) -> (r: u32)
        ensures
            r == 2,
    {
        2
    }
}

impl CpuPriority for Id {
    fn what(&self) -> (r: u32)
        ensures
            r == spec_cpu_which(*self),
    {
        match self {
            Id::Process(id) => id.what(),
            Id::ProcessGroup(id) => id.what(),
            Id::User(id) => id.what(),
        }
    }
}

} // verus!
