use process_scheduler::{prio_value, Class, CpuPriority, Id, IoPriority, Process, ProcessGroup, User};

#[test]
fn prio_value_encoding() {
    assert_eq!(prio_value(Class::NoClass, 0), 0);
    assert_eq!(prio_value(Class::Realtime, 0), 8192);
    assert_eq!(prio_value(Class::BestEffort, 4), 2 * 8192 + 4);
    assert_eq!(prio_value(Class::Idle, 7), 3 * 8192 + 7);
    let v = prio_value(Class::Idle, 255);
    assert_eq!(v >> 13, 3);
    assert_eq!(v & 0x1fff, 255);
}

#[test]
fn class_names() {
    let a: &'static str = Class::NoClass.into();
    let b: &'static str = Class::Realtime.into();
    let c: &'static str = Class::BestEffort.into();
    let d: &'static str = Class::Idle.into();
    assert_eq!((a, b, c, d), ("none", "realtime", "best-effort", "idle"));
}

#[test]
fn cpu_priority_which() {
    assert_eq!(CpuPriority::what(&Process::new(10)), 0);
    assert_eq!(CpuPriority::what(&ProcessGroup::new(10)), 1);
    assert_eq!(CpuPriority::what(&User::new(10)), 2);
    assert_eq!(CpuPriority::what(&Id::Process(Process(1))), 0);
    assert_eq!(CpuPriority::what(&Id::ProcessGroup(ProcessGroup(1))), 1);
    assert_eq!(CpuPriority::what(&Id::User(User(1))), 2);
}

#[test]
fn io_priority_which() {
    assert_eq!(IoPriority::what(&Process::new(10)), 1);
    assert_eq!(IoPriority::what(&ProcessGroup::new(10)), 2);
    assert_eq!(IoPriority::what(&User::new(10)), 3);
    assert_eq!(IoPriority::what(&Id::Process(Process(1))), 1);
    assert_eq!(IoPriority::what(&Id::ProcessGroup(ProcessGroup(1))), 2);
    assert_eq!(IoPriority::what(&Id::User(User(1))), 3);
}

#[test]
fn target_ids() {
    assert_eq!(Process::new(42).id(), 42);
    assert_eq!(Id::User(User::new(1000)).id(), 1000);
    assert_eq!(Id::ProcessGroup(ProcessGroup::new(7)).id(), 7);
}
