use backend_supervisor::supervisor::{Status, Supervisor};

#[test]
fn happy_path_lifecycle() {
    let mut s: Supervisor<u32> = Supervisor::new();
    assert_eq!(s.current_status(), Status::NotStarted);
    assert!(s.begin_start());
    assert_eq!(s.current_status(), Status::Starting);
    assert_eq!(s.store_handle(77), None);
    assert!(s.has_handle());
    assert!(s.report_health(true));
    assert_eq!(s.current_status(), Status::Healthy);
    assert_eq!(s.shutdown(), Some(77));
    assert_eq!(s.current_status(), Status::Terminated);
    assert!(!s.has_handle());
}

#[test]
fn second_start_is_rejected() {
    let mut s: Supervisor<u32> = Supervisor::new();
    assert!(s.begin_start());
    assert!(!s.begin_start());
    assert_eq!(s.store_handle(1), None);
    assert_eq!(s.store_handle(2), Some(2));
    assert!(!s.begin_start());
    assert_eq!(s.shutdown(), Some(1));
}

#[test]
fn store_before_start_is_rejected() {
    let mut s: Supervisor<u32> = Supervisor::new();
    assert_eq!(s.store_handle(5), Some(5));
    assert!(!s.has_handle());
}

#[test]
fn no_restart_after_shutdown() {
    let mut s: Supervisor<u32> = Supervisor::new();
    assert!(s.begin_start());
    assert_eq!(s.store_handle(1), None);
    assert_eq!(s.shutdown(), Some(1));
    assert!(!s.begin_start());
    assert_eq!(s.store_handle(2), Some(2));
}

#[test]
fn readiness_published_once_when_unhealthy() {
    let mut s: Supervisor<u32> = Supervisor::new();
    assert!(s.begin_start());
    assert_eq!(s.store_handle(9), None);
    assert!(s.report_health(false));
    assert_eq!(s.current_status(), Status::Unhealthy);
    assert!(!s.report_health(true));
    assert_eq!(s.current_status(), Status::Unhealthy);
}

#[test]
fn shutdown_without_handle_is_noop() {
    let mut s: Supervisor<u32> = Supervisor::new();
    assert_eq!(s.shutdown(), None);
    assert_eq!(s.current_status(), Status::Terminated);
    assert_eq!(s.shutdown(), None);
}

#[test]
fn health_after_shutdown_keeps_terminated() {
    let mut s: Supervisor<u32> = Supervisor::new();
    assert!(s.begin_start());
    assert_eq!(s.store_handle(3), None);
    assert_eq!(s.shutdown(), Some(3));
    assert!(s.report_health(true));
    assert_eq!(s.current_status(), Status::Terminated);
    assert!(!s.report_health(true));
}
