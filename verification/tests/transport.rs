use rloop_ssl::{
    Action, LimitsError, LostReason, ProtocolChangeError, TransportState, DEFAULT_WATER_HIGH,
};

#[test]
fn new_transport_defaults() {
    let t = TransportState::new(false);
    assert!(!t.is_closing());
    assert!(t.is_reading());
    assert!(!t.is_proto_buffered());
    assert!(!t.is_handshake_complete());
    assert_eq!(t.get_write_buffer_size(), 0);
    assert_eq!(t.get_write_buffer_limits(), (16384, 65536));
    assert_eq!(DEFAULT_WATER_HIGH, 65536);
    assert!(TransportState::new(true).is_proto_buffered());
    assert!(t.can_write_eof());
}

#[test]
fn close_with_nothing_pending_reports_lost() {
    let mut t = TransportState::new(false);
    let actions = t.close();
    assert_eq!(
        actions,
        vec![Action::RemoveReader, Action::ConnectionLost(None), Action::CloseStream]
    );
    assert!(t.is_closing());
    assert!(!t.is_reading());
    // a second close does nothing
    assert_eq!(t.close(), vec![]);
}

#[test]
fn pause_and_resume_reading() {
    let mut t = TransportState::new(false);
    assert_eq!(t.pause_reading(), vec![Action::RemoveReader]);
    assert!(!t.is_reading());
    assert_eq!(t.pause_reading(), vec![]);
    assert_eq!(t.resume_reading(), vec![Action::AddReader]);
    assert!(t.is_reading());
    assert_eq!(t.resume_reading(), vec![]);
}

#[test]
fn closing_transport_ignores_pause_resume() {
    let mut t = TransportState::new(false);
    t.close();
    assert_eq!(t.pause_reading(), vec![]);
    assert_eq!(t.resume_reading(), vec![]);
    assert!(!t.is_reading());
}

#[test]
fn write_eof_closes_once() {
    let mut t = TransportState::new(false);
    assert_eq!(
        t.write_eof(),
        vec![Action::RemoveReader, Action::ConnectionLost(None), Action::CloseStream]
    );
    assert!(t.is_closing());
    assert_eq!(t.write_eof(), vec![]);
}

#[test]
fn abort_open_transport() {
    let mut t = TransportState::new(false);
    assert_eq!(
        t.abort(),
        vec![Action::RemoveReader, Action::ConnectionLost(None), Action::CloseStream]
    );
    assert!(t.is_closing());
    // aborting again still reports the connection lost
    assert_eq!(t.abort(), vec![Action::ConnectionLost(None), Action::CloseStream]);
}

#[test]
fn limits_high_only() {
    let mut t = TransportState::new(false);
    assert_eq!(t.set_write_buffer_limits(Some(1000), None), Ok(()));
    assert_eq!(t.get_write_buffer_limits(), (250, 1000));
}

#[test]
fn limits_low_only() {
    let mut t = TransportState::new(false);
    assert_eq!(t.set_write_buffer_limits(None, Some(100)), Ok(()));
    assert_eq!(t.get_write_buffer_limits(), (100, 400));
}

#[test]
fn limits_both_and_defaults() {
    let mut t = TransportState::new(false);
    assert_eq!(t.set_write_buffer_limits(Some(10), Some(10)), Ok(()));
    assert_eq!(t.get_write_buffer_limits(), (10, 10));
    assert_eq!(t.set_write_buffer_limits(None, None), Ok(()));
    assert_eq!(t.get_write_buffer_limits(), (16384, 65536));
    assert_eq!(t.set_write_buffer_limits(Some(0), Some(0)), Ok(()));
    assert_eq!(t.get_write_buffer_limits(), (0, 0));
}

#[test]
fn limits_high_below_low_refused() {
    let mut t = TransportState::new(false);
    assert_eq!(
        t.set_write_buffer_limits(Some(10), Some(11)),
        Err(LimitsError::HighBelowLow)
    );
    assert_eq!(t.get_write_buffer_limits(), (16384, 65536));
}

#[test]
fn compute_limits_values() {
    assert_eq!(rloop_ssl::compute_limits(None, None), Ok((65536, 16384)));
    assert_eq!(rloop_ssl::compute_limits(Some(7), None), Ok((7, 1)));
    assert_eq!(rloop_ssl::compute_limits(None, Some(3)), Ok((12, 3)));
    assert_eq!(
        rloop_ssl::compute_limits(Some(3), Some(4)),
        Err(LimitsError::HighBelowLow)
    );
}

#[test]
fn set_protocol_refused() {
    let t = TransportState::new(true);
    assert_eq!(t.set_protocol(), Err(ProtocolChangeError::Unsupported));
}

#[test]
fn read_side_close_on_idle_transport() {
    let mut t = TransportState::new(false);
    let (closed, actions) = t.close_from_read_handle();
    assert!(closed);
    assert_eq!(actions, vec![Action::RemoveWriter, Action::ConnectionLost(None)]);
    assert!(t.is_closing());
    let (closed, actions) = t.close_from_read_handle();
    assert!(!closed);
    assert_eq!(actions, vec![]);
}

#[test]
fn recv_eof_kept_open_by_protocol() {
    let mut t = TransportState::new(false);
    assert_eq!(t.begin_eof(), vec![Action::RemoveReader]);
    let (closed, actions) = t.recv_eof(true);
    assert!(!closed);
    assert_eq!(actions, vec![]);
    assert!(!t.is_closing());
    let (closed, actions) = t.recv_eof(false);
    assert!(closed);
    assert_eq!(
        actions,
        vec![Action::RemoveWriter, Action::ConnectionLost(None), Action::CloseStream]
    );
    // the transport is closing now: a later end of stream closes nothing
    let (closed, actions) = t.recv_eof(false);
    assert!(!closed);
    assert_eq!(actions, vec![]);
}

#[test]
fn conn_lost_actions_order() {
    assert_eq!(
        rloop_ssl::call_conn_lost(Some(LostReason::HandshakeFailed)),
        vec![Action::ConnectionLost(Some(LostReason::HandshakeFailed)), Action::CloseStream]
    );
}
