use process_scheduler::PidWatcher;

#[test]
fn first_scan_reports_every_pid_once() {
    let mut w = PidWatcher::default();
    let r = w.scan(&vec![5, 7, 5, 9]);
    assert_eq!(r, vec![0, 1, 3]);
}

#[test]
fn rescan_reports_nothing() {
    let mut w = PidWatcher::new();
    let pids = vec![1, 2, 3];
    w.scan(&pids);
    assert!(w.scan(&pids).is_empty());
}

#[test]
fn scan_reports_only_new_pids() {
    let mut w = PidWatcher::new();
    w.scan(&vec![1, 2, 3]);
    let r = w.scan(&vec![3, 4, 1, 5]);
    assert_eq!(r, vec![1, 3]);
}

#[test]
fn gone_pids_are_forgotten() {
    let mut w = PidWatcher::new();
    w.scan(&vec![1, 2]);
    assert!(w.scan(&vec![2]).is_empty());
    // PID 1 has gone and comes back: it is new again
    assert_eq!(w.scan(&vec![1, 2]), vec![0]);
}
