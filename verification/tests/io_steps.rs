use rloop_ssl::{
    bytes_eq, extra_info_source, flush_step, recv_outcome, str_eq, ExtraInfoSource, FlushStep,
    IoOutcome, PlainRead, RecvOutcome,
};

#[test]
fn flush_step_decisions() {
    assert_eq!(flush_step(IoOutcome::Transferred(0)), FlushStep::Done);
    assert_eq!(flush_step(IoOutcome::Transferred(17)), FlushStep::Continue);
    assert_eq!(flush_step(IoOutcome::WouldBlock), FlushStep::Done);
    assert_eq!(flush_step(IoOutcome::Failed), FlushStep::Failed);
}

#[test]
fn recv_outcome_decisions() {
    assert_eq!(recv_outcome(PlainRead::Read(0)), RecvOutcome::Eof);
    assert_eq!(recv_outcome(PlainRead::Read(5)), RecvOutcome::Data(5));
    assert_eq!(recv_outcome(PlainRead::WouldBlock), RecvOutcome::Nothing);
    assert_eq!(recv_outcome(PlainRead::Failed), RecvOutcome::Eof);
}

#[test]
fn extra_info_names() {
    assert_eq!(extra_info_source("socket"), ExtraInfoSource::Socket);
    assert_eq!(extra_info_source("sockname"), ExtraInfoSource::SockName);
    assert_eq!(extra_info_source("peername"), ExtraInfoSource::PeerName);
    assert_eq!(extra_info_source("sslcontext"), ExtraInfoSource::SslContext);
    assert_eq!(extra_info_source("server_hostname"), ExtraInfoSource::ServerHostname);
    assert_eq!(extra_info_source("cipher"), ExtraInfoSource::Extra);
    assert_eq!(extra_info_source("socke"), ExtraInfoSource::Extra);
    assert_eq!(extra_info_source(""), ExtraInfoSource::Extra);
}

#[test]
fn string_and_byte_equality() {
    assert!(str_eq("héllo", "héllo"));
    assert!(!str_eq("héllo", "hello"));
    assert!(!str_eq("ab", "abc"));
    assert!(bytes_eq(&[1, 2, 3], &[1, 2, 3]));
    assert!(!bytes_eq(&[1, 2, 3], &[1, 2, 4]));
    assert!(bytes_eq(&[], &[]));
}
