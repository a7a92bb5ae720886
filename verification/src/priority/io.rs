use vstd::prelude::*;
use crate::target::{Id, Process, ProcessGroup, User};

verus! {

/// An I/O scheduling class of the kernel.
#[derive(Clone, Copy, Debug, PartialEq, Eq, Structural)]
pub enum Class {
    /// No class set (`IOPRIO_CLASS_NONE`), named `none`.
    NoClass,
    Realtime,
    BestEffort,
    Idle,
}

/// The class's number in the kernel's I/O priority encoding.
pub open spec fn spec_class_number(class: Class) -> i64 {
    match class {
        Class::NoClass => 0,
        Class::Realtime => 1,
        Class::BestEffort => 2,
        Class::Idle => 3,
    }
}

impl Class {
    /// The class's number in the kernel's I/O priority encoding.
    pub fn number(self) -> (r: i64)
        ensures
            r == spec_class_number(self),
    {
        match self {
            Class::NoClass => 0,
            Class::Realtime => 1,
            Class::BestEffort => 2,
            Class::Idle => 3,
        }
    }
}

impl From<Class> for &'static str {
    fn from(class: Class) -> (r: &'static str) {
        match class {
            Class::NoClass => "none",
            Class::Realtime => "realtime",
            Class::BestEffort => "best-effort",
            Class::Idle => "idle",
        }
    }
}

impl vstd::std_specs::convert::FromSpecImpl<Class> for &'static str {
    open spec fn obeys_from_spec() -> bool {
        true
    }

    open spec fn from_spec(class: Class) -> &'static str {
        match class {
            Class::NoClass => "none",
            Class::Realtime => "realtime",
            Class::BestEffort => "best-effort",
            Class::Idle => "idle",
        }
    }
}

/// The `which` argument of `ioprio_get`/`ioprio_set` for a kind of target.
pub trait IoPriority {
    fn what(&self) -> i64;
}

/// `IOPRIO_WHO_PROCESS`, `IOPRIO_WHO_PGRP` and `IOPRIO_WHO_USER` by kind of
/// target.
pub open spec fn spec_io_which(id: Id) -> i64 {
    match id {
        Id::Process(_) => 1,
        Id::ProcessGroup(_) => 2,
        Id::User(_) => 3,
    }
}

impl IoPriority for Process {
    fn what(&self) -> (r: i64)
        ensures
            r == 1,
    {
        1
    }
}

impl IoPriority for ProcessGroup {
    fn what(&self) -> (r: i64)
        ensures
            r == 2,
    {
        2
    }
}

impl IoPriority for User {
    fn what(&self) -> (r: i64)
        ensures
            r == 3,
    {
        3
    }
}

impl IoPriority for Id {
    fn what(&self) -> (r: i64)
        ensures
            r == spec_io_which(*self),
    {
        match self {
            Id::Process(id) => id.what(),
            Id::ProcessGroup(id) => id.what(),
            Id::User(id) => id.what(),
        }
    }
}

/// The bit position of the class in an I/O priority value.
pub const CLASS_SHIFT: i64 = 13;

/// The I/O priority value of a class and a level within it: the class
/// above bit `CLASS_SHIFT`, the level below.
pub open spec fn spec_prio_value(class: Class, data: u8) -> int {
    spec_class_number(class) * 8192 + data
}

/// Encodes a class and a level within it as an I/O priority value. The
/// class and the level can be read back from the value.
pub fn prio_value(class: Class, data: u8) -> (r: i64)
    ensures
        r == spec_prio_value(class, data),
        r >> 13 == spec_class_number(class),
        r & 0x1fff == data as i64,
{
    let c = class.number();
    let d = data as i64;
    let r = (c << CLASS_SHIFT) | d;
    assert(0 <= c <= 3);
    assert(r == c * 8192 + d && r >> 13 == c && r & 0x1fff == d) by (bit_vector)
        requires
            0 <= c <= 3,
            0 <= d <= 255,
            r == (c << 13) | d,
    ;
    r
}

} // verus!
