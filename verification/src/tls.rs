use vstd::prelude::*;
use std::sync::Arc;
use rustls::{ClientConfig, ClientConnection, ServerConfig, ServerConnection};

verus! {

#[verifier::external_type_specification]
#[verifier::external_body]
pub struct ExClientConnection(rustls::ClientConnection);

#[verifier::external_type_specification]
#[verifier::external_body]
pub struct ExServerConnection(rustls::ServerConnection);

#[verifier::external_type_specification]
#[verifier::external_body]
pub struct ExClientConfig(rustls::ClientConfig);

#[verifier::external_type_specification]
#[verifier::external_body]
pub struct ExServerConfig(rustls::ServerConfig);

#[verifier::external_type_specification]
#[verifier::external_body]
pub struct ExTlsError(rustls::Error);

#[verifier::external_type_specification]
#[verifier::external_body]
pub struct ExCertGenError(rcgen::Error);

/// What handing plaintext to a TLS connection came to.
#[derive(Clone, Copy, Debug, PartialEq, Eq)]
pub enum PlainWrite {
    /// The connection took this many bytes from the front of the data.
    Accepted(usize),
    /// The connection refused the data (it holds a fatal error).
    Failed,
}

impl PlainWrite {
    /// An outcome that a write of `len` bytes can have.
    pub open spec fn valid_for(self, len: nat) -> bool {
        self matches PlainWrite::Accepted(n) ==> n <= len
    }

    /// The plaintext that the connection took from `data` with this outcome: the first
    /// `n` bytes when it accepted `n`, nothing when it refused.
    pub open spec fn taken(self, data: Seq<u8>) -> Seq<u8> {
        match self {
            PlainWrite::Accepted(n) => data.take(n as int),
            PlainWrite::Failed => Seq::empty(),
        }
    }
}

/// What reading plaintext from a TLS connection came to.
#[derive(Clone, Copy, Debug, PartialEq, Eq)]
pub enum PlainRead {
    /// This many bytes were read into the front of the buffer; 0 is a clean close.
    Read(usize),
    /// No plaintext is available yet.
    WouldBlock,
    /// Reading failed, for instance on an unclean close by the peer.
    Failed,
}

impl PlainRead {
    /// An outcome that a read into a buffer of `len` bytes can have.
    pub open spec fn valid_for(self, len: nat) -> bool {
        self matches PlainRead::Read(n) ==> n <= len
    }

    /// How a read with this outcome leaves a buffer that held `before` and holds
    /// `after`: the buffer keeps its length; a read of `n` bytes writes only its first
    /// `n` bytes; a blocked or failed read writes nothing; and a read into an empty
    /// buffer reads 0 bytes.
    pub open spec fn buffer_effect(self, before: Seq<u8>, after: Seq<u8>) -> bool {
        &&& after.len() == before.len()
        &&& before.len() == 0 ==> self == PlainRead::Read(0)
        &&& match self {
            PlainRead::Read(n) => forall|i: int| n <= i < before.len() ==> #[trigger] after[i] == before[i],
            _ => after == before,
        }
    }
}

/// Why a TLS configuration could not be set up.
#[derive(Debug)]
pub enum ConfigError {
    /// Generating the self-signed certificate failed.
    Certificate(rcgen::Error),
    /// rustls refused the configuration or the connection.
    Tls(rustls::Error),
}

/// `rustls::ClientConnection::new`, with the server named by an IPv4 address.
/// Nothing is stated of the result: rustls decides whether the configuration is usable.
#[verifier::external_body]
fn client_connection_new(config: Arc<ClientConfig>, ip: [u8; 4]) -> (r: Result<ClientConnection, rustls::Error>) {
    let name = rustls::pki_types::ServerName::from(rustls::pki_types::Ipv4Addr::from(ip));
    ClientConnection::new(config, name)
}

/// `rustls::ServerConnection::new`. Nothing is stated of the result.
#[verifier::external_body]
fn server_connection_new(config: Arc<ServerConfig>) -> (r: Result<ServerConnection, rustls::Error>) {
    ServerConnection::new(config)
}

/// `rustls::CommonState::wants_read` on a client connection (through its `Deref`).
/// The answer depends on the connection's hidden state; nothing is stated of it.
#[verifier::external_body]
fn client_wants_read(conn: &ClientConnection) -> bool {
    conn.wants_read()
}

/// `rustls::CommonState::wants_read` on a server connection. Nothing is stated of it.
#[verifier::external_body]
fn server_wants_read(conn: &ServerConnection) -> bool {
    conn.wants_read()
}

/// `rustls::CommonState::wants_write` on a client connection: whether TLS records wait
/// to be written. Nothing is stated of it.
#[verifier::external_body]
fn client_wants_write(conn: &ClientConnection) -> bool {
    conn.wants_write()
}

/// `rustls::CommonState::wants_write` on a server connection. Nothing is stated of it.
#[verifier::external_body]
fn server_wants_write(conn: &ServerConnection) -> bool {
    conn.wants_write()
}

/// `rustls::CommonState::is_handshaking` on a client connection. Nothing is stated of it.
#[verifier::external_body]
fn client_is_handshaking(conn: &ClientConnection) -> bool {
    conn.is_handshaking()
}

/// `rustls::CommonState::is_handshaking` on a server connection. Nothing is stated of it.
#[verifier::external_body]
fn server_is_handshaking(conn: &ServerConnection) -> bool {
    conn.is_handshaking()
}

/// `rustls::ConnectionCommon::process_new_packets` on a client connection, its
/// `IoState` dropped. Nothing is stated of the result.
#[verifier::external_body]
fn client_process_new_packets(conn: &mut ClientConnection) -> (r: Result<(), rustls::Error>) {
    conn.process_new_packets().map(|_| ())
}

/// `rustls::ConnectionCommon::process_new_packets` on a server connection.
/// Nothing is stated of the result.
#[verifier::external_body]
fn server_process_new_packets(conn: &mut ServerConnection) -> (r: Result<(), rustls::Error>) {
    conn.process_new_packets().map(|_| ())
}

/// `Read::read` of `rustls::Reader` on a client connection. As `Read` documents, a count
/// never exceeds the buffer's length. As rustls's source shows, the plaintext is copied
/// into the front of the buffer only (`ChunkVecBuffer::read`), a blocked or failed read
/// copies nothing, and an empty buffer gives `Ok(0)`. Which bytes were read is not stated.
#[verifier::external_body]
fn client_read_plaintext(conn: &mut ClientConnection, buf: &mut [u8]) -> (r: PlainRead)
    ensures
        r.valid_for(old(buf)@.len()),
        r.buffer_effect(old(buf)@, final(buf)@),
{
    match std::io::Read::read(&mut conn.reader(), buf) {
        Ok(n) => PlainRead::Read(n),
        Err(e) if e.kind() == std::io::ErrorKind::WouldBlock => PlainRead::WouldBlock,
        Err(_) => PlainRead::Failed,
    }
}

/// `Read::read` of `rustls::Reader` on a server connection; as for a client.
#[verifier::external_body]
fn server_read_plaintext(conn: &mut ServerConnection, buf: &mut [u8]) -> (r: PlainRead)
    ensures
        r.valid_for(old(buf)@.len()),
        r.buffer_effect(old(buf)@, final(buf)@),
{
    match std::io::Read::read(&mut conn.reader(), buf) {
        Ok(n) => PlainRead::Read(n),
        Err(e) if e.kind() == std::io::ErrorKind::WouldBlock => PlainRead::WouldBlock,
        Err(_) => PlainRead::Failed,
    }
}

/// `Write::write` of `rustls::Writer` on a client connection: `Accepted(n)` means that the
/// connection took the first `n` bytes of the data (as `Write::write` documents), and `n`
/// never exceeds the data's length (rustls takes a prefix, less under its buffer limit);
/// `Failed` means the connection holds a fatal error and took nothing.
#[verifier::external_body]
fn client_write_plaintext(conn: &mut ClientConnection, data: &[u8]) -> (r: PlainWrite)
    ensures
        r.valid_for(data@.len()),
{
    match std::io::Write::write(&mut conn.writer(), data) {
        Ok(n) => PlainWrite::Accepted(n),
        Err(_) => PlainWrite::Failed,
    }
}

/// `Write::write` of `rustls::Writer` on a server connection; as for a client.
#[verifier::external_body]
fn server_write_plaintext(conn: &mut ServerConnection, data: &[u8]) -> (r: PlainWrite)
    ensures
        r.valid_for(data@.len()),
{
    match std::io::Write::write(&mut conn.writer(), data) {
        Ok(n) => PlainWrite::Accepted(n),
        Err(_) => PlainWrite::Failed,
    }
}

/// `Write::flush` of `rustls::Writer` on a client connection: it does no I/O and is
/// true unless the connection holds a fatal error. Nothing is stated of the answer.
#[verifier::external_body]
fn client_flush_plaintext(conn: &mut ClientConnection) -> bool {
    std::io::Write::flush(&mut conn.writer()).is_ok()
}

/// `Write::flush` of `rustls::Writer` on a server connection; as for a client.
#[verifier::external_body]
fn server_flush_plaintext(conn: &mut ServerConnection) -> bool {
    std::io::Write::flush(&mut conn.writer()).is_ok()
}

/// `rcgen::generate_simple_self_signed`, its `CertifiedKey` converted to the certificate's
/// DER (`Certificate::der`) and the PKCS#8 DER of its freshly generated key
/// (`KeyPair::serialize_der`, which panics only for remote keys, never generated here).
/// The key is random: nothing is stated of the result.
#[verifier::external_body]
fn generate_self_signed(names: Vec<String>) -> (r: Result<(Vec<u8>, Vec<u8>), rcgen::Error>) {
    rcgen::generate_simple_self_signed(names).map(|ck| (ck.cert.der().to_vec(), ck.key_pair.serialize_der()))
}

/// `ServerConfig::builder().with_no_client_auth().with_single_cert(..)`, one builder
/// chain, with one certificate and a PKCS#8 key, both DER, the result wrapped in an `Arc`.
/// The builder takes the process-default crypto provider, which the crate's single
/// rustls provider feature (ring) determines. rustls checks the key; nothing is stated
/// of the result.
#[verifier::external_body]
fn server_config_with_single_cert(cert_der: Vec<u8>, key_der: Vec<u8>) -> (r: Result<Arc<ServerConfig>, rustls::Error>) {
    ServerConfig::builder()
        .with_no_client_auth()
        .with_single_cert(
            vec![rustls::pki_types::CertificateDer::from(cert_der)],
            rustls::pki_types::PrivateKeyDer::Pkcs8(rustls::pki_types::PrivatePkcs8KeyDer::from(key_der)),
        )
        .map(Arc::new)
}

/// A server configuration, with the names its certificate was generated for and the
/// certificate and key that were handed to rustls.
pub struct ServerTlsConfig {
    /// The rustls configuration.
    pub config: Arc<ServerConfig>,
    /// The names handed to certificate generation.
    pub cert_names: Ghost<Seq<Seq<char>>>,
    /// The certificate DER handed to rustls.
    pub cert_der: Ghost<Seq<u8>>,
    /// The PKCS#8 key DER handed to rustls.
    pub key_der: Ghost<Seq<u8>>,
}

/// Builds the rustls server configuration from a certificate and its key, both DER,
/// and records what it handed over.
fn build_server_config(cert_der: Vec<u8>, key_der: Vec<u8>) -> (r: (Result<Arc<ServerConfig>, rustls::Error>, Ghost<(Seq<u8>, Seq<u8>)>))
    ensures
        r.1@ == (cert_der@, key_der@),
{
    let handed = Ghost((cert_der@, key_der@));
    (server_config_with_single_cert(cert_der, key_der), handed)
}

/// The rest of building the server configuration once certificate generation came to
/// `generated`: a generation failure is a `Certificate` error; otherwise the
/// certificate and key, in that order, go to rustls, whose refusal is a `Tls` error.
pub fn server_config_from(generated: Result<(Vec<u8>, Vec<u8>), rcgen::Error>) -> (r: Result<ServerTlsConfig, ConfigError>)
    ensures
        generated matches Err(e) ==> (r matches Err(ConfigError::Certificate(e2)) && e2 == e),
        generated is Ok ==> (r is Ok || r matches Err(ConfigError::Tls(_))),
        r matches Ok(c) ==> generated matches Ok(parts) && c.cert_der@ == parts.0@ && c.key_der@ == parts.1@
            && c.cert_names@ == Seq::<Seq<char>>::empty(),
{
    match generated {
        Err(e) => Err(ConfigError::Certificate(e)),
        Ok((cert_der, key_der)) => {
            let (built, handed) = build_server_config(cert_der, key_der);
            match built {
                Err(e) => Err(ConfigError::Tls(e)),
                Ok(config) => Ok(ServerTlsConfig {
                    config,
                    cert_names: Ghost(Seq::empty()),
                    cert_der: Ghost(handed@.0),
                    key_der: Ghost(handed@.1),
                }),
            }
        },
    }
}

/// The server configuration of a transport: no client authentication and a
/// self-signed certificate for `localhost`, generated afresh, with its key.
pub fn server_config() -> (r: Result<ServerTlsConfig, ConfigError>)
    ensures
        r matches Ok(c) ==> c.cert_names@ == seq!["localhost"@],
{
    let mut names: Vec<String> = Vec::new();
    names.push("localhost".to_owned());
    let ghost handed: Seq<Seq<char>> = names@.map_values(|n: String| n@);
    assert(handed =~= seq!["localhost"@]);
    let generated = generate_self_signed(names);
    match server_config_from(generated) {
        Ok(c) => Ok(ServerTlsConfig { cert_names: Ghost(handed), ..c }),
        Err(e) => Err(e),
    }
}

/// The address a client connection names its server by: 127.0.0.1.
pub open spec fn localhost_v4() -> Seq<u8> {
    seq![127u8, 0u8, 0u8, 1u8]
}

/// The rustls connection of either side.
pub enum TlsSide {
    Client(ClientConnection),
    Server(ServerConnection),
}

/// One answer that rustls gave this library about a connection.
pub enum TlsAnswer {
    /// Record processing: whether rustls accepted the records.
    Processed(bool),
    /// Whether the handshake was still under way.
    Handshaking(bool),
    /// Whether rustls wanted more TLS data read.
    WantsRead(bool),
    /// Whether rustls held TLS records to write.
    WantsWrite(bool),
    /// What a plaintext read came to.
    Read(PlainRead),
    /// What handing plaintext to the connection came to.
    Wrote(PlainWrite),
    /// Whether flushing the plaintext writer succeeded.
    Flushed(bool),
}

impl TlsAnswer {
    /// A write that the connection answered by taking at least one byte.
    pub open spec fn is_progress(self) -> bool {
        self matches TlsAnswer::Wrote(PlainWrite::Accepted(n)) && n > 0
    }

    /// A write that the connection answered by taking nothing: a refusal, or no room.
    pub open spec fn is_refusal(self) -> bool {
        self == TlsAnswer::Wrote(PlainWrite::Failed) || self == TlsAnswer::Wrote(PlainWrite::Accepted(0))
    }
}

/// `after` is `before` with more answers appended.
pub open spec fn extends(before: Seq<TlsAnswer>, after: Seq<TlsAnswer>) -> bool {
    before.len() <= after.len() && after.take(before.len() as int) == before
}

/// The answers appended to `before` are all writes that took at least one byte.
pub open spec fn all_progress(before: Seq<TlsAnswer>, after: Seq<TlsAnswer>) -> bool {
    &&& extends(before, after)
    &&& forall|i: int| before.len() <= i < after.len() ==> #[trigger] after[i].is_progress()
}

/// The answers appended to `before` are writes that took at least one byte, and then,
/// last, a write that took nothing.
pub open spec fn ends_in_refusal(before: Seq<TlsAnswer>, after: Seq<TlsAnswer>) -> bool {
    &&& before.len() < after.len()
    &&& all_progress(before, after.drop_last())
    &&& after.last().is_refusal()
}

/// Progress followed by progress is progress.
pub proof fn lemma_all_progress_trans(a: Seq<TlsAnswer>, b: Seq<TlsAnswer>, c: Seq<TlsAnswer>)
    requires
        all_progress(a, b),
        all_progress(b, c),
    ensures
        all_progress(a, c),
{
    assert(c.take(a.len() as int) =~= b.take(a.len() as int)) by {
        assert forall|i: int| 0 <= i < a.len() implies c[i] == b[i] by {
            assert(c.take(b.len() as int)[i] == b[i]);
        }
    }
    assert forall|i: int| a.len() <= i < c.len() implies #[trigger] c[i].is_progress() by {
        if i < b.len() {
            assert(c.take(b.len() as int)[i] == b[i]);
            assert(b[i].is_progress());
        }
    }
}

/// Progress followed by a final refusal ends in a refusal.
pub proof fn lemma_progress_then_refusal(a: Seq<TlsAnswer>, b: Seq<TlsAnswer>, c: Seq<TlsAnswer>)
    requires
        all_progress(a, b),
        ends_in_refusal(b, c),
    ensures
        ends_in_refusal(a, c),
{
    assert(c.drop_last().take(b.len() as int) =~= c.take(b.len() as int));
    lemma_all_progress_trans(a, b, c.drop_last());
}

/// A TLS connection, on the client side or on the server side, with a record of what
/// the library handed it and what rustls answered: the plaintext it took, the answers
/// to each question asked, in order, and the address a client names its server by.
pub struct TlsConnection {
    side: TlsSide,
    sent: Ghost<Seq<u8>>,
    answers: Ghost<Seq<TlsAnswer>>,
    server_ip: Ghost<Option<Seq<u8>>>,
}

impl TlsConnection {
    /// The rustls connection.
    pub closed spec fn side(&self) -> TlsSide {
        self.side
    }

    /// The plaintext the connection took through this library, in order.
    pub closed spec fn sent(&self) -> Seq<u8> {
        self.sent@
    }

    /// The answers rustls gave through this library, in order.
    pub closed spec fn answers(&self) -> Seq<TlsAnswer> {
        self.answers@
    }

    /// The same connection with one more answer recorded.
    pub closed spec fn with_answer(self, a: TlsAnswer) -> TlsConnection {
        TlsConnection { answers: Ghost(self.answers@.push(a)), ..self }
    }

    /// The address handed to rustls as the server's name, for a client connection.
    pub closed spec fn server_ip(&self) -> Option<Seq<u8>> {
        self.server_ip@
    }

    /// This is a client connection.
    pub open spec fn is_client(&self) -> bool {
        self.side() is Client
    }

    /// The same side and the same record as `other`.
    pub open spec fn same_record(&self, other: &TlsConnection) -> bool {
        &&& self.is_client() == other.is_client()
        &&& self.sent() == other.sent()
        &&& self.answers() == other.answers()
        &&& self.server_ip() == other.server_ip()
    }

    /// The same side and record as `other`, but for one more answer `a`.
    pub open spec fn answered(&self, other: &TlsConnection, a: TlsAnswer) -> bool {
        &&& self.is_client() == other.is_client()
        &&& self.sent() == other.sent()
        &&& self.answers() == other.answers().push(a)
        &&& self.server_ip() == other.server_ip()
    }

    /// A client connection with `config`; the server is named by 127.0.0.1.
    pub fn new_client(config: Arc<ClientConfig>) -> (r: Result<TlsConnection, ConfigError>)
        ensures
            r matches Ok(c) ==> c.is_client() && c.server_ip() == Some(localhost_v4())
                && c.sent() == Seq::<u8>::empty() && c.answers() == Seq::<TlsAnswer>::empty(),
            r matches Err(e) ==> e is Tls,
    {
        let ip: [u8; 4] = [127u8, 0u8, 0u8, 1u8];
        let ghost name: Seq<u8> = ip@;
        assert(name =~= localhost_v4());
        match client_connection_new(config, ip) {
            Ok(conn) => Ok(TlsConnection {
                side: TlsSide::Client(conn),
                sent: Ghost(Seq::empty()),
                answers: Ghost(Seq::empty()),
                server_ip: Ghost(Some(name)),
            }),
            Err(e) => Err(ConfigError::Tls(e)),
        }
    }

    /// A server connection with `config`.
    pub fn new_server(config: Arc<ServerConfig>) -> (r: Result<TlsConnection, ConfigError>)
        ensures
            r matches Ok(c) ==> !c.is_client() && c.server_ip() is None
                && c.sent() == Seq::<u8>::empty() && c.answers() == Seq::<TlsAnswer>::empty(),
            r matches Err(e) ==> e is Tls,
    {
        match server_connection_new(config) {
            Ok(conn) => Ok(TlsConnection {
                side: TlsSide::Server(conn),
                sent: Ghost(Seq::empty()),
                answers: Ghost(Seq::empty()),
                server_ip: Ghost(None),
            }),
            Err(e) => Err(ConfigError::Tls(e)),
        }
    }

    /// The client connection, if this is one.
    pub fn as_client(&self) -> (r: Option<&ClientConnection>)
        ensures
            r is Some <==> self.is_client(),
            r matches Some(c) ==> self.side() == TlsSide::Client(*c),
    {
        match &self.side {
            TlsSide::Client(conn) => Some(conn),
            _ => None,
        }
    }

    /// The server connection, if this is one.
    pub fn as_server(&self) -> (r: Option<&ServerConnection>)
        ensures
            r is Some <==> !self.is_client(),
            r matches Some(c) ==> self.side() == TlsSide::Server(*c),
    {
        match &self.side {
            TlsSide::Server(conn) => Some(conn),
            _ => None,
        }
    }

    /// The client connection, mutably, if this is one; the record is kept.
    pub fn as_client_mut(&mut self) -> (r: Option<&mut ClientConnection>)
        ensures
            r is Some <==> old(self).is_client(),
            r matches Some(c) ==> old(self).side() == TlsSide::Client(*c) && final(self).side()
                == TlsSide::Client(*final(c)),
            r is None ==> *final(self) == *old(self),
            final(self).same_record(&*old(self)),
    {
        match &mut self.side {
            TlsSide::Client(conn) => Some(conn),
            _ => None,
        }
    }

    /// The server connection, mutably, if this is one; the record is kept.
    pub fn as_server_mut(&mut self) -> (r: Option<&mut ServerConnection>)
        ensures
            r is Some <==> !old(self).is_client(),
            r matches Some(c) ==> old(self).side() == TlsSide::Server(*c) && final(self).side()
                == TlsSide::Server(*final(c)),
            r is None ==> *final(self) == *old(self),
            final(self).same_record(&*old(self)),
    {
        match &mut self.side {
            TlsSide::Server(conn) => Some(conn),
            _ => None,
        }
    }

    /// The record with one more answer: rustls's side, plaintext and name unchanged.
    pub proof fn lemma_with_answer(self, a: TlsAnswer)
        ensures
            self.with_answer(a).side() == self.side(),
            self.with_answer(a).answered(&self, a),
    {
    }

    /// Whether rustls wants more TLS data read from the socket; the answer is recorded.
    pub fn wants_read(&mut self) -> (r: bool)
        ensures
            *final(self) == old(self).with_answer(TlsAnswer::WantsRead(r)),
            final(self).answered(&*old(self), TlsAnswer::WantsRead(r)),
    {
        let r = match &self.side {
            TlsSide::Client(conn) => client_wants_read(conn),
            TlsSide::Server(conn) => server_wants_read(conn),
        };
        self.answers = Ghost(self.answers@.push(TlsAnswer::WantsRead(r)));
        r
    }

    /// Whether rustls holds TLS records to write to the socket; the answer is recorded.
    pub fn wants_write(&mut self) -> (r: bool)
        ensures
            *final(self) == old(self).with_answer(TlsAnswer::WantsWrite(r)),
            final(self).answered(&*old(self), TlsAnswer::WantsWrite(r)),
    {
        let r = match &self.side {
            TlsSide::Client(conn) => client_wants_write(conn),
            TlsSide::Server(conn) => server_wants_write(conn),
        };
        self.answers = Ghost(self.answers@.push(TlsAnswer::WantsWrite(r)));
        r
    }

    /// Whether the handshake is still under way; the answer is recorded.
    pub fn is_handshaking(&mut self) -> (r: bool)
        ensures
            *final(self) == old(self).with_answer(TlsAnswer::Handshaking(r)),
            final(self).answered(&*old(self), TlsAnswer::Handshaking(r)),
    {
        let r = match &self.side {
            TlsSide::Client(conn) => client_is_handshaking(conn),
            TlsSide::Server(conn) => server_is_handshaking(conn),
        };
        self.answers = Ghost(self.answers@.push(TlsAnswer::Handshaking(r)));
        r
    }

    /// Processes the TLS records read so far; the outcome is recorded.
    pub fn process_new_packets(&mut self) -> (r: Result<(), rustls::Error>)
        ensures
            final(self).answered(&*old(self), TlsAnswer::Processed(r is Ok)),
    {
        let r = match &mut self.side {
            TlsSide::Client(conn) => client_process_new_packets(conn),
            TlsSide::Server(conn) => server_process_new_packets(conn),
        };
        self.answers = Ghost(self.answers@.push(TlsAnswer::Processed(r is Ok)));
        r
    }

    /// Reads received plaintext into `buf`; the outcome is recorded.
    pub fn read_plaintext(&mut self, buf: &mut [u8]) -> (r: PlainRead)
        ensures
            r.valid_for(old(buf)@.len()),
            final(buf)@.len() == old(buf)@.len(),
            r.buffer_effect(old(buf)@, final(buf)@),
            final(self).answered(&*old(self), TlsAnswer::Read(r)),
    {
        let r = match &mut self.side {
            TlsSide::Client(conn) => client_read_plaintext(conn, buf),
            TlsSide::Server(conn) => server_read_plaintext(conn, buf),
        };
        self.answers = Ghost(self.answers@.push(TlsAnswer::Read(r)));
        r
    }

    /// Hands plaintext to the connection for sending; what it took is recorded.
    pub fn write_plaintext(&mut self, data: &[u8]) -> (r: PlainWrite)
        ensures
            r.valid_for(data@.len()),
            final(self).sent() == old(self).sent() + r.taken(data@),
            final(self).is_client() == old(self).is_client(),
            final(self).answers() == old(self).answers().push(TlsAnswer::Wrote(r)),
            final(self).server_ip() == old(self).server_ip(),
    {
        let r = match &mut self.side {
            TlsSide::Client(conn) => client_write_plaintext(conn, data),
            TlsSide::Server(conn) => server_write_plaintext(conn, data),
        };
        self.sent = Ghost(self.sent@ + r.taken(data@));
        self.answers = Ghost(self.answers@.push(TlsAnswer::Wrote(r)));
        r
    }

    /// Hands all of `data` to the connection, as `Write::write_all` does: writes until
    /// nothing is left, and fails when the connection refuses or takes nothing (rustls's
    /// writer never asks to retry). True when all was taken; on a failure, a proper
    /// prefix was taken. Each write's answer is recorded: all take bytes, except a last
    /// one that takes nothing, exactly when the call fails.
    pub fn write_all_plaintext(&mut self, data: &[u8]) -> (r: bool)
        ensures
            r ==> final(self).sent() == old(self).sent() + data@,
            !r ==> exists|k: int| 0 <= k < data@.len() && final(self).sent() == old(self).sent()
                + #[trigger] data@.take(k),
            data@.len() == 0 ==> r && *final(self) == *old(self),
            data@.len() > 0 && r ==> old(self).answers().len() < final(self).answers().len()
                && all_progress(old(self).answers(), final(self).answers()),
            !r ==> ends_in_refusal(old(self).answers(), final(self).answers()),
            final(self).is_client() == old(self).is_client(),
            final(self).server_ip() == old(self).server_ip(),
    {
        let mut off: usize = 0;
        assert(data@.take(0) =~= Seq::<u8>::empty());
        assert(old(self).answers().take(old(self).answers().len() as int) =~= old(self).answers());
        while off < data.len()
            invariant
                off <= data@.len(),
                self.sent() == old(self).sent() + data@.take(off as int),
                self.is_client() == old(self).is_client(),
                self.server_ip() == old(self).server_ip(),
                all_progress(old(self).answers(), self.answers()),
                off > 0 ==> old(self).answers().len() < self.answers().len(),
                off == 0 ==> *self == *old(self),
            decreases data@.len() - off,
        {
            let rest = vstd::slice::slice_subrange(data, off, data.len());
            let ghost before = self.sent();
            let ghost answers_before = self.answers();
            let w = self.write_plaintext(rest);
            proof {
                assert(self.answers().drop_last() =~= answers_before);
                assert(self.answers().take(answers_before.len() as int) =~= answers_before);
                assert(answers_before.take(answers_before.len() as int) =~= answers_before);
                assert(self.answers().last() == TlsAnswer::Wrote(w));
            }
            match w {
                PlainWrite::Accepted(n) => {
                    if n == 0 {
                        assert(rest@.take(0) =~= Seq::<u8>::empty());
                        assert(self.sent() =~= before);
                        assert(ends_in_refusal(answers_before, self.answers()));
                        proof { lemma_progress_then_refusal(old(self).answers(), answers_before, self.answers()); }
                        return false;
                    }
                    assert(data@.take(off as int) + rest@.take(n as int) =~= data@.take(off + n));
                    assert(all_progress(answers_before, self.answers()));
                    proof { lemma_all_progress_trans(old(self).answers(), answers_before, self.answers()); }
                    off = off + n;
                },
                PlainWrite::Failed => {
                    assert(self.sent() =~= before);
                    assert(ends_in_refusal(answers_before, self.answers()));
                    proof { lemma_progress_then_refusal(old(self).answers(), answers_before, self.answers()); }
                    return false;
                },
            }
        }
        assert(data@.take(off as int) =~= data@);
        true
    }

    /// Flushes the plaintext writer: false when the connection holds a fatal error; the
    /// answer is recorded.
    pub fn flush_plaintext(&mut self) -> (r: bool)
        ensures
            final(self).answered(&*old(self), TlsAnswer::Flushed(r)),
    {
        let r = match &mut self.side {
            TlsSide::Client(conn) => client_flush_plaintext(conn),
            TlsSide::Server(conn) => server_flush_plaintext(conn),
        };
        self.answers = Ghost(self.answers@.push(TlsAnswer::Flushed(r)));
        r
    }
}

} // verus!
