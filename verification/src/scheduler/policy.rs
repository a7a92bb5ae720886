use vstd::prelude::*;
use core::convert::TryFrom;
use core::str::FromStr;
use crate::text::str_equals;

verus! {

/// `SCHED_OTHER` of the Linux scheduler ABI.
pub const SCHED_OTHER: u8 = 0;
/// `SCHED_FIFO` of the Linux scheduler ABI.
pub const SCHED_FIFO: u8 = 1;
/// `SCHED_RR` of the Linux scheduler ABI.
pub const SCHED_RR: u8 = 2;
/// `SCHED_BATCH` of the Linux scheduler ABI.
pub const SCHED_BATCH: u8 = 3;
/// `SCHED_IDLE` of the Linux scheduler ABI.
pub const SCHED_IDLE: u8 = 5;
/// `SCHED_DEADLINE` of the Linux scheduler ABI.
pub const SCHED_DEADLINE: u8 = 6;

/// A scheduling policy of the Linux kernel.
///
/// The variants carry no explicit discriminants, so `policy as u8` gives
/// the position of the variant (`Idle` is 4, `Deadline` is 5), not the
/// kernel's number for the policy; that number is `Policy::number`.
#[derive(Clone, Copy, Debug, Eq, Hash, PartialEq, Structural)]
pub enum Policy {
    Other,
    Fifo,
    Rr,
    Batch,
    Idle,
    Deadline,
}

/// The kernel's number for a policy.
pub open spec fn spec_policy_number(p: Policy) -> u8 {
    match p {
        Policy::Other => SCHED_OTHER,
        Policy::Fifo => SCHED_FIFO,
        Policy::Rr => SCHED_RR,
        Policy::Batch => SCHED_BATCH,
        Policy::Idle => SCHED_IDLE,
        Policy::Deadline => SCHED_DEADLINE,
    }
}

/// The policy that the kernel's number stands for, if any.
pub open spec fn spec_policy_from_number(value: u8) -> Option<Policy> {
    if value == SCHED_OTHER {
        Some(Policy::Other)
    } else if value == SCHED_FIFO {
        Some(Policy::Fifo)
    } else if value == SCHED_RR {
        Some(Policy::Rr)
    } else if value == SCHED_BATCH {
        Some(Policy::Batch)
    } else if value == SCHED_IDLE {
        Some(Policy::Idle)
    } else if value == SCHED_DEADLINE {
        Some(Policy::Deadline)
    } else {
        None
    }
}

/// The name by which a policy is written in configuration files.
pub open spec fn spec_policy_name(p: Policy) -> Seq<char> {
    match p {
        Policy::Other => "other"@,
        Policy::Fifo => "fifo"@,
        Policy::Rr => "rr"@,
        Policy::Batch => "batch"@,
        Policy::Idle => "idle"@,
        Policy::Deadline => "deadline"@,
    }
}

/// The policy whose name is `s`, if any.
pub open spec fn spec_policy_from_name(s: Seq<char>) -> Option<Policy> {
    if s == "other"@ {
        Some(Policy::Other)
    } else if s == "fifo"@ {
        Some(Policy::Fifo)
    } else if s == "rr"@ {
        Some(Policy::Rr)
    } else if s == "batch"@ {
        Some(Policy::Batch)
    } else if s == "idle"@ {
        Some(Policy::Idle)
    } else if s == "deadline"@ {
        Some(Policy::Deadline)
    } else {
        None
    }
}

impl Policy {
    /// The number by which the kernel knows this policy.
    pub fn number(self) -> (r: u8)
        ensures
            r == spec_policy_number(self),
    {
        match self {
            Policy::Other => SCHED_OTHER,
            Policy::Fifo => SCHED_FIFO,
            Policy::Rr => SCHED_RR,
            Policy::Batch => SCHED_BATCH,
            Policy::Idle => SCHED_IDLE,
            Policy::Deadline => SCHED_DEADLINE,
        }
    }

    /// Parses the name of a policy as written in configuration files.
    pub fn parse(input: &str) -> (r: Result<Policy, ()>)
        ensures
            r == (match spec_policy_from_name(input@) {
                Some(p) => Ok::<Policy, ()>(p),
                None => Err(()),
            }),
    {
        if str_equals(input, "other") {
            Ok(Policy::Other)
        } else if str_equals(input, "fifo") {
            Ok(Policy::Fifo)
        } else if str_equals(input, "rr") {
            Ok(Policy::Rr)
        } else if str_equals(input, "batch") {
            Ok(Policy::Batch)
        } else if str_equals(input, "idle") {
            Ok(Policy::Idle)
        } else if str_equals(input, "deadline") {
            Ok(Policy::Deadline)
        } else {
            Err(())
        }
    }
}

impl TryFrom<u8> for Policy {
    type Error = ();

    fn try_from(value: u8) -> (r: Result<Policy, ()>) {
        if value == SCHED_OTHER {
            Ok(Policy::Other)
        } else if value == SCHED_FIFO {
            Ok(Policy::Fifo)
        } else if value == SCHED_RR {
            Ok(Policy::Rr)
        } else if value == SCHED_BATCH {
            Ok(Policy::Batch)
        } else if value == SCHED_IDLE {
            Ok(Policy::Idle)
        } else if value == SCHED_DEADLINE {
            Ok(Policy::Deadline)
        } else {
            Err(())
        }
    }
}

impl vstd::std_specs::convert::TryFromSpecImpl<u8> for Policy {
    open spec fn obeys_try_from_spec() -> bool {
        true
    }

    open spec fn try_from_spec(value: u8) -> Result<Policy, ()> {
        match spec_policy_from_number(value) {
            Some(p) => Ok(p),
            None => Err(()),
        }
    }
}

impl FromStr for Policy {
    type Err = ();

    fn from_str(input: &str) -> (r: Result<Policy, ()>)
        ensures
            r == (match spec_policy_from_name(input@) {
                Some(p) => Ok::<Policy, ()>(p),
                None => Err(()),
            }),
    {
        Policy::parse(input)
    }
}

impl From<Policy> for &'static str {
    fn from(policy: Policy) -> (r: &'static str) {
        match policy {
            Policy::Other => "other",
            Policy::Fifo => "fifo",
            Policy::Rr => "rr",
            Policy::Batch => "batch",
            Policy::Idle => "idle",
            Policy::Deadline => "deadline",
        }
    }
}

impl vstd::std_specs::convert::FromSpecImpl<Policy> for &'static str {
    open spec fn obeys_from_spec() -> bool {
        true
    }

    open spec fn from_spec(policy: Policy) -> &'static str {
        match policy {
            Policy::Other => "other",
            Policy::Fifo => "fifo",
            Policy::Rr => "rr",
            Policy::Batch => "batch",
            Policy::Idle => "idle",
            Policy::Deadline => "deadline",
        }
    }
}

/// The name of a policy parses back to that policy, and the kernel's
/// number for a policy converts back to that policy.
pub proof fn lemma_policy_round_trips(p: Policy)
    ensures
        spec_policy_from_name(spec_policy_name(p)) == Some(p),
        spec_policy_from_number(spec_policy_number(p)) == Some(p),
        <&'static str as vstd::std_specs::convert::FromSpec<Policy>>::from_spec(p)@
            == spec_policy_name(p),
{
    reveal_strlit("other");
    reveal_strlit("fifo");
    reveal_strlit("rr");
    reveal_strlit("batch");
    reveal_strlit("idle");
    reveal_strlit("deadline");
    assert("other"@.len() == 5 && "other"@[0] == 'o');
    assert("fifo"@.len() == 4 && "fifo"@[0] == 'f');
    assert("rr"@.len() == 2 && "rr"@[0] == 'r');
    assert("batch"@.len() == 5 && "batch"@[0] == 'b');
    assert("idle"@.len() == 4 && "idle"@[0] == 'i');
    assert("deadline"@.len() == 8 && "deadline"@[0] == 'd');
}

} // verus!
