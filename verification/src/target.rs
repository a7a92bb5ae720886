use vstd::prelude::*;

verus! {

/// A single process, by its PID.
#[derive(Clone, Copy, Debug, PartialEq, Eq, Structural)]
pub struct Process(pub u32);

/// A process group, by its PGID.
#[derive(Clone, Copy, Debug, PartialEq, Eq, Structural)]
pub struct ProcessGroup(pub u32);

/// All processes of a user, by the user's UID.
#[derive(Clone, Copy, Debug, PartialEq, Eq, Structural)]
pub struct User(pub u32);

/// Any one of the targets that the kernel's priority calls accept.
#[derive(Clone, Copy, Debug, PartialEq, Eq, Structural)]
pub enum Id {
    Process(Process),
    ProcessGroup(ProcessGroup),
    User(User),
}

impl Process {
    pub fn new(id: u32) -> (r: Process)
        ensures
            r.0 == id,
    {
        Process(id)
    }

    /// The process's PID.
    pub fn id(&self) -> (r: u32)
        ensures
            r == self.0,
    {
        self.0
    }
}

impl ProcessGroup {
    pub fn new(id: u32) -> (r: ProcessGroup)
        ensures
            r.0 == id,
    {
        ProcessGroup(id)
    }

    /// The group's PGID.
    pub fn id(&self) -> (r: u32)
        ensures
            r == self.0,
    {
        self.0
    }
}

impl User {
    pub fn new(id: u32) -> (r: User)
        ensures
            r.0 == id,
    {
        User(id)
    }

    /// The user's UID.
    pub fn id(&self) -> (r: u32)
        ensures
            r == self.0,
    {
        self.0
    }
}

/// The numeric id that a target carries.
pub open spec fn spec_id_number(id: Id) -> u32 {
    match id {
        Id::Process(p) => p.0,
        Id::ProcessGroup(g) => g.0,
        Id::User(u) => u.0,
    }
}

impl Id {
    /// The numeric id of the target, whatever its kind.
    pub fn id(&self) -> (r: u32)
        ensures
            r == spec_id_number(*self),
    {
        match self {
            Id::Process(p) => p.id(),
            Id::ProcessGroup(g) => g.id(),
            Id::User(u) => u.id(),
        }
    }
}

} // verus!
