use std::sync::Arc;

use rustls::client::danger::{HandshakeSignatureValid, ServerCertVerified, ServerCertVerifier};
use rustls::pki_types::{CertificateDer, ServerName, UnixTime};
use rustls::{ClientConfig, DigitallySignedStruct, SignatureScheme};

use rloop_ssl::{
    read_round_actions, server_config, write_ready_actions, write_ready_decision, Action, Handshake,
    HandshakeError,
    IoOutcome, LostReason, PlainWrite, RecvOutcome, TlsConnection, TransportState, WriteError,
    WriteOutcome,
};

#[derive(Debug)]
struct AcceptAny;

impl ServerCertVerifier for AcceptAny {
    fn verify_server_cert(
        &self,
        _end_entity: &CertificateDer<'_>,
        _intermediates: &[CertificateDer<'_>],
        _server_name: &ServerName<'_>,
        _ocsp_response: &[u8],
        _now: UnixTime,
    ) -> Result<ServerCertVerified, rustls::Error> {
        Ok(ServerCertVerified::assertion())
    }

    fn verify_tls12_signature(
        &self,
        _message: &[u8],
        _cert: &CertificateDer<'_>,
        _dss: &DigitallySignedStruct,
    ) -> Result<HandshakeSignatureValid, rustls::Error> {
        Ok(HandshakeSignatureValid::assertion())
    }

    fn verify_tls13_signature(
        &self,
        _message: &[u8],
        _cert: &CertificateDer<'_>,
        _dss: &DigitallySignedStruct,
    ) -> Result<HandshakeSignatureValid, rustls::Error> {
        Ok(HandshakeSignatureValid::assertion())
    }

    fn supported_verify_schemes(&self) -> Vec<SignatureScheme> {
        vec![
            SignatureScheme::ECDSA_NISTP256_SHA256,
            SignatureScheme::ECDSA_NISTP384_SHA384,
            SignatureScheme::ED25519,
            SignatureScheme::RSA_PSS_SHA256,
            SignatureScheme::RSA_PKCS1_SHA256,
        ]
    }
}

fn client_config() -> Arc<ClientConfig> {
    Arc::new(
        ClientConfig::builder()
            .dangerous()
            .with_custom_certificate_verifier(Arc::new(AcceptAny))
            .with_no_client_auth(),
    )
}

fn pair() -> (TlsConnection, TlsConnection) {
    let client = TlsConnection::new_client(client_config()).unwrap();
    let server = TlsConnection::new_server(server_config().unwrap().config).unwrap();
    (client, server)
}

/// Moves every pending TLS record from one connection into the other, as a socket
/// would, and returns what the receiving `read_tls` came to.
fn pump(from: &mut TlsConnection, to: &mut TlsConnection) -> IoOutcome {
    let mut wire: Vec<u8> = Vec::new();
    loop {
        let n = if from.as_client().is_some() {
            from.as_client_mut().unwrap().write_tls(&mut wire).unwrap()
        } else {
            from.as_server_mut().unwrap().write_tls(&mut wire).unwrap()
        };
        if n == 0 {
            break;
        }
    }
    let mut rd: &[u8] = &wire;
    let mut total = 0;
    while !rd.is_empty() {
        let n = if to.as_client().is_some() {
            to.as_client_mut().unwrap().read_tls(&mut rd).unwrap()
        } else {
            to.as_server_mut().unwrap().read_tls(&mut rd).unwrap()
        };
        total += n;
    }
    IoOutcome::Transferred(total)
}

#[test]
fn connection_sides() {
    let (mut client, mut server) = pair();
    assert!(client.as_client().is_some());
    assert!(client.as_server().is_none());
    assert!(server.as_server().is_some());
    assert!(server.as_client().is_none());
    assert!(client.as_client_mut().is_some());
    assert!(server.as_server_mut().is_some());
    assert!(client.as_server_mut().is_none());
    assert!(client.is_handshaking());
    assert!(server.is_handshaking());
    // a fresh client has its ClientHello to send
    assert!(client.wants_write());
    assert!(server.wants_read());
    assert!(client.flush_plaintext());
}

#[test]
fn writes_before_handshake_are_buffered() {
    let (mut client, _server) = pair();
    let mut t = TransportState::new(false);
    assert_eq!(t.try_write(&mut client, b"hello"), Ok(WriteOutcome::Stored));
    assert_eq!(t.try_write(&mut client, b""), Ok(WriteOutcome::Stored));
    assert_eq!(t.try_write(&mut client, b" world"), Ok(WriteOutcome::Stored));
    assert_eq!(t.get_write_buffer_size(), 11);
    // with data pending, close does not report the connection lost yet
    assert_eq!(t.close(), vec![Action::RemoveReader]);
    // and the read side cannot close it either
    let (closed, actions) = t.close_from_read_handle();
    assert!(!closed);
    assert_eq!(actions, vec![]);
}

#[test]
fn abort_with_pending_data() {
    let (mut client, _server) = pair();
    let mut t = TransportState::new(false);
    assert_eq!(t.try_write(&mut client, b"abc"), Ok(WriteOutcome::Stored));
    assert_eq!(
        t.abort(),
        vec![
            Action::RemoveWriter,
            Action::RemoveReader,
            Action::ConnectionLost(None),
            Action::CloseStream
        ]
    );
}

#[test]
fn write_after_eof_refused() {
    let (mut client, _server) = pair();
    let mut t = TransportState::new(false);
    assert_eq!(t.try_write(&mut client, b"abc"), Ok(WriteOutcome::Stored));
    // pending data: write_eof closes without reporting the connection lost
    assert_eq!(t.write_eof(), vec![Action::RemoveReader]);
    assert_eq!(t.try_write(&mut client, b"more"), Err(WriteError::AfterEof));
    assert_eq!(t.try_write(&mut client, b""), Err(WriteError::AfterEof));
    assert_eq!(t.get_write_buffer_size(), 3);
}

#[test]
fn handshake_round_trip_delivers_buffered_data() {
    let (mut client, mut server) = pair();
    let mut ct = TransportState::new(false);
    let mut st = TransportState::new(true);

    assert_eq!(ct.try_write(&mut client, b"ping"), Ok(WriteOutcome::Stored));
    assert_eq!(ct.get_write_buffer_size(), 4);

    // a blocked socket read changes nothing
    assert!(matches!(ct.do_handshake(&mut client, IoOutcome::WouldBlock), Ok(Handshake::Pending)));

    // ClientHello
    let r = pump(&mut client, &mut server);
    assert!(matches!(st.do_handshake(&mut server, r), Ok(Handshake::Pending)));
    assert!(!st.is_handshake_complete());

    // server flight: the client completes and hands "ping" to TLS
    let r = pump(&mut server, &mut client);
    assert!(matches!(
        ct.do_handshake(&mut client, r),
        Ok(Handshake::Completed { flush_socket: true })
    ));
    assert!(ct.is_handshake_complete());
    assert_eq!(ct.get_write_buffer_size(), 0);

    // client Finished and the data: the server completes with nothing to flush
    let r = pump(&mut client, &mut server);
    assert!(matches!(
        st.do_handshake(&mut server, r),
        Ok(Handshake::Completed { flush_socket: false })
    ));

    let mut buf = [0u8; 64];
    match st.recv_data(&mut server, &mut buf) {
        RecvOutcome::Data(n) => assert_eq!(&buf[..n], b"ping"),
        other => panic!("unexpected {:?}", other),
    }
    assert_eq!(st.recv_data(&mut server, &mut buf), RecvOutcome::Nothing);

    // after the handshake, writes go straight to TLS
    assert_eq!(st.try_write(&mut server, b"pong"), Ok(WriteOutcome::FlushSocket));
    assert_eq!(st.get_write_buffer_size(), 0);
    let r = pump(&mut server, &mut client);
    assert!(matches!(ct.do_handshake(&mut client, r), Ok(Handshake::Pending)));
    let mut cbuf = [0u8; 2];
    assert_eq!(ct.recv_data(&mut client, &mut cbuf), RecvOutcome::Data(2));
    assert_eq!(&cbuf, b"po");
    assert_eq!(ct.recv_data(&mut client, &mut cbuf), RecvOutcome::Data(2));
    assert_eq!(&cbuf, b"ng");

    // a clean close_notify ends the stream
    server.as_server_mut().unwrap().send_close_notify();
    let r = pump(&mut server, &mut client);
    assert!(matches!(ct.do_handshake(&mut client, r), Ok(Handshake::Pending)));
    assert_eq!(ct.recv_data(&mut client, &mut cbuf), RecvOutcome::Eof);
}

#[test]
fn no_data_before_handshake() {
    let (mut client, _server) = pair();
    let t = TransportState::new(false);
    let mut buf = [7u8; 8];
    assert_eq!(t.recv_data(&mut client, &mut buf), RecvOutcome::Nothing);
    assert_eq!(buf, [7u8; 8]);
}

#[test]
fn failed_socket_read_is_an_error() {
    let (mut client, _server) = pair();
    let mut t = TransportState::new(false);
    assert!(matches!(
        t.do_handshake(&mut client, IoOutcome::Failed),
        Err(rloop_ssl::HandshakeError::Read)
    ));
}

#[test]
fn garbage_records_are_a_tls_error() {
    let (_client, mut server) = pair();
    let mut t = TransportState::new(false);
    let junk = [0x16u8, 0x03, 0x01, 0x00, 0x05, 1, 2, 3, 4, 5];
    let mut rd: &[u8] = &junk;
    let n = server.as_server_mut().unwrap().read_tls(&mut rd).unwrap();
    assert!(matches!(
        t.do_handshake(&mut server, IoOutcome::Transferred(n)),
        Err(rloop_ssl::HandshakeError::Tls(_))
    ));
    assert!(!t.is_handshake_complete());
}

#[test]
fn write_ready_actions_cases() {
    let (mut client, _server) = pair();
    assert_eq!(
        write_ready_actions(&mut client, false),
        vec![
            Action::ConnectionLost(Some(LostReason::WriteFailed)),
            Action::CloseStream,
            Action::CloseStream
        ]
    );
    // the ClientHello waits: keep watching writability
    assert_eq!(write_ready_actions(&mut client, true), vec![]);
    let mut sink: Vec<u8> = Vec::new();
    if let Some(c) = client.as_client_mut() {
        while c.write_tls(&mut sink).unwrap() > 0 {}
    }
    assert_eq!(write_ready_actions(&mut client, true), vec![Action::RemoveWriter]);
}

#[test]
fn server_config_generates_a_certificate() {
    assert!(server_config().is_ok());
}

#[test]
fn write_ready_decision_cases() {
    assert_eq!(
        write_ready_decision(false, true),
        vec![
            Action::ConnectionLost(Some(LostReason::WriteFailed)),
            Action::CloseStream,
            Action::CloseStream
        ]
    );
    assert_eq!(write_ready_decision(true, true), vec![]);
    assert_eq!(write_ready_decision(true, false), vec![Action::RemoveWriter]);
}

#[test]
fn apply_plain_write_cases() {
    let mut t = TransportState::new(false);
    assert_eq!(t.apply_plain_write(b"hello", PlainWrite::Accepted(5)), WriteOutcome::FlushSocket);
    assert_eq!(t.get_write_buffer_size(), 0);
    assert_eq!(t.apply_plain_write(b"hello", PlainWrite::Accepted(2)), WriteOutcome::FlushSocket);
    assert_eq!(t.get_write_buffer_size(), 3);
    assert_eq!(t.apply_plain_write(b"hey", PlainWrite::Failed), WriteOutcome::Stored);
    assert_eq!(t.get_write_buffer_size(), 6);
}

#[test]
fn on_packets_processed_cases() {
    let (mut client, _server) = pair();
    let mut t = TransportState::new(false);
    assert_eq!(t.try_write(&mut client, b"abc"), Ok(WriteOutcome::Stored));
    // still handshaking: nothing happens
    assert!(matches!(t.on_packets_processed(&mut client, true), Ok(Handshake::Pending)));
    assert!(!t.is_handshake_complete());
    assert_eq!(t.get_write_buffer_size(), 3);
    // handshake done: the buffer goes to the connection
    assert!(matches!(
        t.on_packets_processed(&mut client, false),
        Ok(Handshake::Completed { flush_socket: true })
    ));
    assert!(t.is_handshake_complete());
    assert_eq!(t.get_write_buffer_size(), 0);
    // only once
    assert!(matches!(t.on_packets_processed(&mut client, false), Ok(Handshake::Pending)));
}

#[test]
fn flush_without_pending_data() {
    let (mut client, _server) = pair();
    let mut t = TransportState::new(false);
    assert!(matches!(
        t.on_packets_processed(&mut client, false),
        Ok(Handshake::Completed { flush_socket: false })
    ));
}

#[test]
fn refused_buffered_chunk_is_lost_but_counted() {
    let (mut client, _server) = pair();
    let mut t = TransportState::new(false);
    assert_eq!(t.try_write(&mut client, b"abc"), Ok(WriteOutcome::Stored));
    assert_eq!(t.try_write(&mut client, b"de"), Ok(WriteOutcome::Stored));
    // a fatal protocol error on the connection
    let junk = [0x16u8, 0x03, 0x01, 0x00, 0x05, 1, 2, 3, 4, 5];
    let mut rd: &[u8] = &junk;
    let n = client.as_client_mut().unwrap().read_tls(&mut rd).unwrap();
    assert!(matches!(
        t.do_handshake(&mut client, IoOutcome::Transferred(n)),
        Err(HandshakeError::Tls(_))
    ));
    assert!(!client.flush_plaintext());
    // the connection now refuses plaintext: the first chunk is lost, still counted
    assert!(matches!(
        t.on_packets_processed(&mut client, false),
        Err(HandshakeError::BufferedWrite)
    ));
    assert_eq!(t.get_write_buffer_size(), 5);
    // "de" still waits, so neither side's close reports the connection lost
    let (closed, actions) = t.close_from_read_handle();
    assert!(!closed);
    assert_eq!(actions, vec![]);
}

#[test]
fn plaintext_edge_cases() {
    let (mut client, _server) = pair();
    let mut empty: [u8; 0] = [];
    assert_eq!(client.read_plaintext(&mut empty), rloop_ssl::PlainRead::Read(0));
    let mut buf = [9u8; 4];
    assert_eq!(client.read_plaintext(&mut buf), rloop_ssl::PlainRead::WouldBlock);
    assert_eq!(buf, [9u8; 4]);
    assert!(client.write_all_plaintext(b""));
    assert!(client.write_all_plaintext(b"early data"));
}

#[test]
fn read_round_actions_cases() {
    let lost = vec![
        Action::ConnectionLost(Some(LostReason::HandshakeFailed)),
        Action::CloseStream,
    ];
    assert_eq!(read_round_actions(&Err(HandshakeError::Read), true), lost);
    assert_eq!(read_round_actions(&Err(HandshakeError::BufferedWrite), true), lost);
    assert_eq!(
        read_round_actions(&Ok(Handshake::Completed { flush_socket: true }), false),
        lost
    );
    assert_eq!(
        read_round_actions(&Ok(Handshake::Completed { flush_socket: true }), true),
        vec![]
    );
    assert_eq!(read_round_actions(&Ok(Handshake::Pending), false), vec![]);
}

#[test]
fn server_config_names_localhost() {
    let cfg = server_config().unwrap();
    assert!(TlsConnection::new_server(cfg.config).is_ok());
}

#[test]
fn write_eof_flag() {
    let mut t = TransportState::new(false);
    assert!(!t.is_write_eof());
    t.write_eof();
    assert!(t.is_write_eof());
}
