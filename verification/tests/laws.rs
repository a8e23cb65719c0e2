use rloop_ssl::{Action, TransportState};

#[test]
fn law_close_idempotent_example() {
    let mut t = TransportState::new(false);
    let first = t.close();
    assert_eq!(first.len(), 3);
    assert_eq!(t.close(), vec![]);
    assert!(t.is_closing());
}

#[test]
fn law_pause_resume_roundtrip_example() {
    let mut t = TransportState::new(true);
    t.set_write_buffer_limits(Some(100), Some(10)).unwrap();
    assert_eq!(t.pause_reading(), vec![Action::RemoveReader]);
    assert_eq!(t.resume_reading(), vec![Action::AddReader]);
    assert!(t.is_reading());
    assert!(!t.is_closing());
    assert_eq!(t.get_write_buffer_limits(), (10, 100));
    assert_eq!(t.get_write_buffer_size(), 0);
}

#[test]
fn law_limits_read_after_write_example() {
    let mut t = TransportState::new(false);
    t.set_write_buffer_limits(Some(4096), Some(1024)).unwrap();
    assert_eq!(t.get_write_buffer_limits(), (1024, 4096));
    assert!(t.set_write_buffer_limits(Some(1), Some(2)).is_err());
    assert_eq!(t.get_write_buffer_limits(), (1024, 4096));
}

#[test]
fn law_abort_reports_lost_example() {
    let mut t = TransportState::new(false);
    t.close();
    let actions = t.abort();
    assert_eq!(
        &actions[actions.len() - 2..],
        &[Action::ConnectionLost(None), Action::CloseStream]
    );
}

#[test]
fn law_not_reading_after_close_example() {
    let mut a = TransportState::new(false);
    a.abort();
    assert!(!a.is_reading());
    let mut b = TransportState::new(false);
    b.write_eof();
    assert!(!b.is_reading());
}
