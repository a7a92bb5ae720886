use process_scheduler::CpuSet;

#[test]
fn cpu_set() {
    let mut set = CpuSet::default();
    assert!(!set.is_set(0));

    set.set(0);
    assert!(set.is_set(0))
}

#[test]
fn cpu_set_new_is_empty_and_rounds_up() {
    let set = CpuSet::new(100);
    assert_eq!(set.capacity(), 128);
    assert_eq!(set.count(), 0);
    assert_eq!(set.as_words(), &[0u64, 0u64][..]);
    let empty = CpuSet::new(0);
    assert_eq!(empty.capacity(), 0);
    assert!(!empty.is_set(0));
}

#[test]
fn cpu_set_set_unset_and_count() {
    let mut set = CpuSet::new(2048);
    set.set(3);
    set.set(64);
    set.set(2047);
    set.set(3);
    assert_eq!(set.count(), 3);
    assert!(set.is_set(3) && set.is_set(64) && set.is_set(2047));
    assert!(!set.is_set(4) && !set.is_set(63) && !set.is_set(65));
    assert_eq!(set.as_words()[0], 1u64 << 3);
    assert_eq!(set.as_words()[1], 1u64);
    assert_eq!(set.as_words()[31], 1u64 << 63);
    set.unset(64);
    set.unset(5);
    assert_eq!(set.count(), 2);
    assert!(!set.is_set(64));
    assert!(set.is_set(3));
}

#[test]
fn cpu_set_beyond_capacity_is_ignored() {
    let mut set = CpuSet::new(64);
    set.set(64);
    set.set(100000);
    assert!(!set.is_set(64));
    assert_eq!(set.count(), 0);
    set.unset(100000);
    assert_eq!(set.count(), 0);
}

#[test]
fn cpu_set_from_words() {
    let set = CpuSet::from_words(vec![0b1011u64, 1u64 << 40]);
    assert_eq!(set.capacity(), 128);
    assert_eq!(set.count(), 4);
    assert!(set.is_set(0) && set.is_set(1) && !set.is_set(2) && set.is_set(3));
    assert!(set.is_set(104));
}
