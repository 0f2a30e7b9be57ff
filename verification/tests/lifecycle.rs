use keywatch::bridge::SnapshotQueue;
use keywatch::session::{EngineError, SessionRegistry};

#[test]
fn start_twice_is_already_running() {
    let mut reg = SessionRegistry::new();
    assert!(!reg.is_running());
    assert_eq!(reg.begin_start(), Ok(()));
    assert_eq!(reg.begin_start(), Err(EngineError::AlreadyRunning));
    reg.confirm_start();
    assert!(reg.is_running());
    assert_eq!(reg.begin_start(), Err(EngineError::AlreadyRunning));
}

#[test]
fn stop_twice_is_not_running() {
    let mut reg = SessionRegistry::new();
    assert_eq!(reg.begin_stop(), Err(EngineError::NotRunning));
    assert_eq!(reg.begin_start(), Ok(()));
    reg.confirm_start();
    assert_eq!(reg.begin_stop(), Ok(()));
    assert_eq!(reg.finish_stop(true), Ok(()));
    assert_eq!(reg.begin_stop(), Err(EngineError::NotRunning));
}

#[test]
fn unload_success_leaves_slot_empty() {
    let mut reg = SessionRegistry::new();
    assert_eq!(reg.begin_start(), Ok(()));
    reg.confirm_start();
    assert_eq!(reg.begin_stop(), Ok(()));
    assert_eq!(reg.finish_stop(true), Ok(()));
    assert!(!reg.is_running());
}

#[test]
fn abnormal_join_is_reported_and_slot_emptied() {
    let mut reg = SessionRegistry::new();
    assert_eq!(reg.begin_start(), Ok(()));
    reg.confirm_start();
    assert_eq!(reg.begin_stop(), Ok(()));
    assert_eq!(reg.finish_stop(false), Err(EngineError::JoinFailure));
    assert!(!reg.is_running());
    assert_eq!(reg.begin_start(), Ok(()));
}

#[test]
fn failed_registration_aborts_start_with_os_error() {
    let mut reg = SessionRegistry::new();
    assert_eq!(reg.begin_start(), Ok(()));
    let err = reg.abort_start();
    assert_eq!(err, EngineError::OsRegistrationFailure);
    assert!(!reg.is_running());
    assert_eq!(reg.begin_start(), Ok(()));
}

#[test]
fn queue_delivers_snapshots_in_order() {
    let mut q = SnapshotQueue::new();
    assert!(q.push(vec!["A".to_string()]));
    assert!(q.push(vec!["A".to_string(), "B".to_string()]));
    assert_eq!(q.take(), Ok(Some(vec!["A".to_string()])));
    assert_eq!(q.take(), Ok(Some(vec!["A".to_string(), "B".to_string()])));
    assert_eq!(q.take(), Ok(None));
}

#[test]
fn drained_closed_queue_is_channel_closed() {
    let mut q = SnapshotQueue::new();
    assert!(q.push(vec!["A".to_string()]));
    q.close();
    assert_eq!(q.take(), Ok(Some(vec!["A".to_string()])));
    assert_eq!(q.take(), Err(EngineError::ChannelClosed));
    assert_eq!(q.take(), Err(EngineError::ChannelClosed));
}

#[test]
fn closed_queue_accepts_no_further_snapshot() {
    let mut q = SnapshotQueue::new();
    q.close();
    assert!(!q.push(vec!["A".to_string()]));
    assert!(!q.push(vec!["B".to_string()]));
    assert!(!q.push(vec![]));
    assert_eq!(q.take(), Err(EngineError::ChannelClosed));
}
