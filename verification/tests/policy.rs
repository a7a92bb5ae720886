use process_scheduler::{policy_from_status, status_to_result, Parameters, Policy, SchedulerError};
use std::convert::TryFrom;

const ALL: [Policy; 6] = [
    Policy::Other,
    Policy::Fifo,
    Policy::Rr,
    Policy::Batch,
    Policy::Idle,
    Policy::Deadline,
];

#[test]
fn policy_names_parse() {
    assert_eq!("other".parse::<Policy>(), Ok(Policy::Other));
    assert_eq!("fifo".parse::<Policy>(), Ok(Policy::Fifo));
    assert_eq!("rr".parse::<Policy>(), Ok(Policy::Rr));
    assert_eq!("batch".parse::<Policy>(), Ok(Policy::Batch));
    assert_eq!("idle".parse::<Policy>(), Ok(Policy::Idle));
    assert_eq!("deadline".parse::<Policy>(), Ok(Policy::Deadline));
    assert_eq!("Idle".parse::<Policy>(), Err(()));
    assert_eq!("".parse::<Policy>(), Err(()));
    assert_eq!("idle ".parse::<Policy>(), Err(()));
}

#[test]
fn policy_name_round_trip() {
    for p in ALL.iter() {
        let name: &'static str = (*p).into();
        assert_eq!(Policy::parse(name), Ok(*p));
    }
    let name: &'static str = Policy::Deadline.into();
    assert_eq!(name, "deadline");
}

#[test]
fn policy_numbers() {
    assert_eq!(Policy::Other.number(), 0);
    assert_eq!(Policy::Fifo.number(), 1);
    assert_eq!(Policy::Rr.number(), 2);
    assert_eq!(Policy::Batch.number(), 3);
    assert_eq!(Policy::Idle.number(), 5);
    assert_eq!(Policy::Deadline.number(), 6);
    for p in ALL.iter() {
        assert_eq!(Policy::try_from(p.number()), Ok(*p));
    }
    assert_eq!(Policy::try_from(4u8), Err(()));
    assert_eq!(Policy::try_from(7u8), Err(()));
}

#[test]
fn scheduler_status_interpretation() {
    assert_eq!(status_to_result(0), Ok(()));
    assert_eq!(status_to_result(12), Ok(()));
    assert!(status_to_result(-1).is_err());
    assert_eq!(policy_from_status(3), Ok(Policy::Batch));
    assert_eq!(policy_from_status(4), Err(SchedulerError::UnknownPolicy(4)));
    // the kernel's value is taken as a byte
    assert_eq!(policy_from_status(262), Ok(Policy::Deadline));
    match policy_from_status(-1) {
        Err(SchedulerError::UnknownPolicy(_)) | Ok(_) => panic!("expected an errno error"),
        Err(_) => {}
    }
}

#[test]
fn scheduler_error_from_code() {
    assert_eq!(SchedulerError::from_code(22), SchedulerError::InvalidArgs);
    assert_eq!(SchedulerError::from_code(1), SchedulerError::Permissions);
    assert_eq!(SchedulerError::from_code(3), SchedulerError::NotFound);
    assert_eq!(SchedulerError::from_code(12), SchedulerError::Other);
    assert!(!matches!(SchedulerError::from_errno(), SchedulerError::UnknownPolicy(_)));
}

#[test]
fn default_parameters() {
    assert_eq!(Parameters::default().sched_priority, 0);
}
