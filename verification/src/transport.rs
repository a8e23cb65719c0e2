use vstd::prelude::*;
use std::collections::VecDeque;

use crate::action::{Action, IoOutcome, LostReason, conn_lost_actions, call_conn_lost};
use crate::tls::{
    PlainRead, PlainWrite, TlsAnswer, TlsConnection, all_progress, ends_in_refusal,
    lemma_all_progress_trans, lemma_progress_then_refusal,
};
use crate::limits::{DEFAULT_WATER_HIGH, LimitsError, compute_limits, limits_computable, requested_limits};

verus! {

broadcast use vstd::std_specs::vecdeque::group_vec_dequeue_axioms;

/// The number of bytes in a sequence of chunks.
pub open spec fn total_len(chunks: Seq<Seq<u8>>) -> nat
    decreases chunks.len(),
{
    if chunks.len() == 0 {
        0
    } else {
        chunks[0].len() + total_len(chunks.drop_first())
    }
}

/// Appending a chunk adds its length to the total.
pub proof fn lemma_total_len_push(chunks: Seq<Seq<u8>>, c: Seq<u8>)
    ensures
        total_len(chunks.push(c)) == total_len(chunks) + c.len(),
    decreases chunks.len(),
{
    if chunks.len() == 0 {
        assert(chunks.push(c).drop_first() =~= Seq::<Seq<u8>>::empty());
        assert(total_len(chunks.push(c).drop_first()) == 0);
    } else {
        assert(chunks.push(c).drop_first() =~= chunks.drop_first().push(c));
        assert(chunks.push(c)[0] == chunks[0]);
        lemma_total_len_push(chunks.drop_first(), c);
    }
}

/// The total of a prefix grows by the next chunk.
pub proof fn lemma_total_len_take(chunks: Seq<Seq<u8>>, k: int)
    requires
        0 <= k < chunks.len(),
    ensures
        total_len(chunks.take(k + 1)) == total_len(chunks.take(k)) + chunks[k].len(),
        total_len(chunks.take(k)) + total_len(chunks.skip(k)) == total_len(chunks),
{
    assert(chunks.take(k + 1) =~= chunks.take(k).push(chunks[k]));
    lemma_total_len_push(chunks.take(k), chunks[k]);
    lemma_total_len_split(chunks, k);
}

/// A sequence's total is the total of a prefix plus that of the rest.
pub proof fn lemma_total_len_split(chunks: Seq<Seq<u8>>, k: int)
    requires
        0 <= k <= chunks.len(),
    ensures
        total_len(chunks.take(k)) + total_len(chunks.skip(k)) == total_len(chunks),
    decreases k,
{
    if k == 0 {
        assert(chunks.take(0) =~= Seq::<Seq<u8>>::empty());
        assert(chunks.skip(0) =~= chunks);
    } else {
        lemma_total_len_split(chunks.drop_first(), k - 1);
        assert(chunks.drop_first().take(k - 1) =~= chunks.take(k).drop_first());
        assert(chunks.drop_first().skip(k - 1) =~= chunks.skip(k));
    }
}

/// What a transport is, as the logic sees it.
pub struct TransportModel {
    /// `close`, `abort` or a read-side close has begun.
    pub closing: bool,
    /// Reading is paused by the protocol.
    pub paused: bool,
    /// `write_eof` was called: no more writes are accepted.
    pub eof_written: bool,
    /// The high-water mark of the write buffer.
    pub water_high: nat,
    /// The low-water mark of the write buffer.
    pub water_low: nat,
    /// The protocol is a buffered one (`get_buffer`/`buffer_updated`).
    pub buffered_protocol: bool,
    /// The TLS handshake has completed.
    pub handshake_complete: bool,
    /// Data written by the protocol and not yet handed to TLS, oldest first.
    pub pending: Seq<Seq<u8>>,
    /// The write-buffer size the transport reports.
    pub pending_size: nat,
}

impl TransportModel {
    /// The invariant of a transport: the low mark does not exceed the high one, no
    /// pending chunk is empty, and the reported size covers the pending bytes, exactly
    /// so until the handshake completes.
    pub open spec fn wf(self) -> bool {
        &&& self.water_low <= self.water_high
        &&& forall|i: int| 0 <= i < self.pending.len() ==> #[trigger] self.pending[i].len() > 0
        &&& total_len(self.pending) <= self.pending_size
        &&& !self.handshake_complete ==> self.size_exact()
    }

    /// The reported size is exactly the number of pending bytes.
    pub open spec fn size_exact(self) -> bool {
        self.pending_size == total_len(self.pending)
    }

    /// The protocol would see the transport as reading.
    pub open spec fn reading(self) -> bool {
        !self.closing && !self.paused
    }

    /// `data` appended to the pending chunks.
    pub open spec fn buffer(self, data: Seq<u8>) -> TransportModel {
        TransportModel {
            pending: self.pending.push(data),
            pending_size: self.pending_size + data.len(),
            ..self
        }
    }

    /// The same transport, closing.
    pub open spec fn set_closing(self) -> TransportModel {
        TransportModel { closing: true, ..self }
    }
}

/// A new transport: open, reading, with default limits and nothing pending.
pub open spec fn initial_model(buffered_protocol: bool) -> TransportModel {
    TransportModel {
        closing: false,
        paused: false,
        eof_written: false,
        water_high: DEFAULT_WATER_HIGH as nat,
        water_low: (DEFAULT_WATER_HIGH / 4) as nat,
        buffered_protocol,
        handshake_complete: false,
        pending: Seq::empty(),
        pending_size: 0,
    }
}

/// `close`: the first call starts closing, stops reading and, with nothing
/// pending, reports the connection lost; later calls do nothing.
pub open spec fn close_step(m: TransportModel) -> (TransportModel, Seq<Action>) {
    if m.closing {
        (m, Seq::empty())
    } else {
        (
            m.set_closing(),
            seq![Action::RemoveReader] + if m.pending_size == 0 {
                conn_lost_actions(None)
            } else {
                Seq::empty()
            },
        )
    }
}

/// `pause_reading`: an open, reading transport stops reading.
pub open spec fn pause_step(m: TransportModel) -> (TransportModel, Seq<Action>) {
    if m.closing || m.paused {
        (m, Seq::empty())
    } else {
        (TransportModel { paused: true, ..m }, seq![Action::RemoveReader])
    }
}

/// `resume_reading`: an open, paused transport reads again.
pub open spec fn resume_step(m: TransportModel) -> (TransportModel, Seq<Action>) {
    if m.closing || !m.paused {
        (m, Seq::empty())
    } else {
        (TransportModel { paused: false, ..m }, seq![Action::AddReader])
    }
}

/// `write_eof`: the first call on an open transport refuses further writes and closes.
pub open spec fn write_eof_step(m: TransportModel) -> (TransportModel, Seq<Action>) {
    if m.closing || m.eof_written {
        (m, Seq::empty())
    } else {
        close_step(TransportModel { eof_written: true, ..m })
    }
}

/// `abort`: stop writing if anything is pending, stop reading if not yet closing,
/// then report the connection lost.
pub open spec fn abort_step(m: TransportModel) -> (TransportModel, Seq<Action>) {
    (
        m.set_closing(),
        (if m.pending_size > 0 { seq![Action::RemoveWriter] } else { Seq::empty() }) + (if !m.closing {
            seq![Action::RemoveReader]
        } else {
            Seq::empty()
        }) + conn_lost_actions(None),
    )
}

/// A close begun by the read side (end of stream): it succeeds, and returns true,
/// only for a transport not yet closing with no pending chunk.
pub open spec fn read_close_step(m: TransportModel) -> (TransportModel, bool, Seq<Action>) {
    if m.closing {
        (m, false, Seq::empty())
    } else if m.pending.len() > 0 {
        (m.set_closing(), false, Seq::empty())
    } else {
        (m.set_closing(), true, seq![Action::RemoveWriter, Action::ConnectionLost(None)])
    }
}

/// The first step at the end of the peer's stream, before the protocol's
/// `eof_received` is asked: stop reading.
pub open spec fn eof_begin_actions() -> Seq<Action> {
    seq![Action::RemoveReader]
}

/// End of stream once the protocol's `eof_received` has answered: a true answer
/// keeps the transport open; otherwise the read side closes it, and when that close
/// goes through the stream is closed too.
pub open spec fn recv_eof_step(m: TransportModel, keep_open: bool) -> (TransportModel, bool, Seq<Action>) {
    if keep_open {
        (m, false, Seq::empty())
    } else {
        let (m2, closed, actions) = read_close_step(m);
        (m2, closed, if closed { actions.push(Action::CloseStream) } else { actions })
    }
}

/// All that the end of the peer's stream does, as its two steps give it: stop reading,
/// then, after `eof_received` answered, what `recv_eof_step` asks for.
pub open spec fn eof_actions(m: TransportModel, keep_open: bool) -> Seq<Action> {
    eof_begin_actions() + recv_eof_step(m, keep_open).2
}

/// `set_write_buffer_limits`: the requested marks replace the current ones unless
/// the high one is below the low one.
pub open spec fn set_limits_step(m: TransportModel, high: Option<usize>, low: Option<usize>) -> (
    TransportModel,
    Result<(), LimitsError>,
) {
    let (wh, wl) = requested_limits(high, low);
    if wh < wl {
        (m, Err(LimitsError::HighBelowLow))
    } else {
        (TransportModel { water_high: wh as nat, water_low: wl as nat, ..m }, Ok(()))
    }
}

/// What a write asks of its caller.
#[derive(Clone, Copy, Debug, PartialEq, Eq)]
pub enum WriteOutcome {
    /// Nothing more to do: the data was empty, or it waits in the write buffer.
    Stored,
    /// The connection holds new TLS records: flush them to the socket.
    FlushSocket,
}

/// Why a write was refused.
#[derive(Clone, Copy, Debug, PartialEq, Eq)]
pub enum WriteError {
    /// `write_eof` was called before ("Cannot write after EOF").
    AfterEof,
}

/// The rest of a write once the connection has answered `w`: what it did not take
/// waits in the write buffer; whatever it took is to be flushed to the socket.
pub open spec fn tls_write_step(m: TransportModel, data: Seq<u8>, w: PlainWrite) -> (
    TransportModel,
    Result<WriteOutcome, WriteError>,
) {
    match w {
        PlainWrite::Accepted(n) => if n == data.len() {
            (m, Ok(WriteOutcome::FlushSocket))
        } else {
            (m.buffer(data.skip(n as int)), Ok(WriteOutcome::FlushSocket))
        },
        PlainWrite::Failed => (m.buffer(data), Ok(WriteOutcome::Stored)),
    }
}

/// `write`: refused after `write_eof`; empty data does nothing; before the handshake
/// completes the data waits in the write buffer; afterwards it goes to the connection,
/// whose answer is `w`.
pub open spec fn try_write_step(m: TransportModel, data: Seq<u8>, w: PlainWrite) -> (
    TransportModel,
    Result<WriteOutcome, WriteError>,
) {
    if m.eof_written {
        (m, Err(WriteError::AfterEof))
    } else if data.len() == 0 {
        (m, Ok(WriteOutcome::Stored))
    } else if !m.handshake_complete {
        (m.buffer(data), Ok(WriteOutcome::Stored))
    } else {
        tls_write_step(m, data, w)
    }
}

/// A write of `len` bytes cannot overflow the reported buffer size.
pub open spec fn write_fits(m: TransportModel, len: nat) -> bool {
    m.pending_size + len <= usize::MAX
}

/// The write buffer once every pending chunk went to the connection.
pub open spec fn flushed(m: TransportModel) -> TransportModel {
    TransportModel {
        pending: Seq::empty(),
        pending_size: (m.pending_size - total_len(m.pending)) as nat,
        ..m
    }
}

/// The write buffer once the first `k` pending chunks went to the connection and the
/// next one was taken out but refused: it is lost, and still counted in the size.
pub open spec fn flush_failed_at(m: TransportModel, k: int) -> TransportModel {
    TransportModel {
        pending: m.pending.skip(k + 1),
        pending_size: (m.pending_size - total_len(m.pending.take(k))) as nat,
        ..m
    }
}

/// The same transport with its handshake complete.
pub open spec fn completed(m: TransportModel) -> TransportModel {
    TransportModel { handshake_complete: true, ..m }
}

/// A write of `data` hands plaintext to the connection: no `write_eof` before, the data
/// is not empty, and the handshake has completed.
pub open spec fn writes_to_tls(m: TransportModel, data: Seq<u8>) -> bool {
    !m.eof_written && data.len() > 0 && m.handshake_complete
}

/// The plaintext that a write of `data` hands to the connection, when the connection
/// answers `w`: what the connection took, on the path that writes to it; else nothing.
pub open spec fn written_by_write(m: TransportModel, data: Seq<u8>, w: PlainWrite) -> Seq<u8> {
    if writes_to_tls(m, data) {
        w.taken(data)
    } else {
        Seq::empty()
    }
}

/// Why reading and processing TLS records failed.
#[derive(Debug)]
pub enum HandshakeError {
    /// Reading from the socket failed.
    Read,
    /// rustls rejected the records.
    Tls(rustls::Error),
    /// Handing the write buffer to the connection failed.
    BufferedWrite,
}

/// What a round of reading and processing TLS records came to.
#[derive(Clone, Copy, Debug, PartialEq, Eq)]
pub enum Handshake {
    /// The handshake did not complete in this round (it may have completed before).
    Pending,
    /// The handshake completed in this round; the write buffer went to the connection,
    /// and its records are to be flushed to the socket when `flush_socket`.
    Completed { flush_socket: bool },
}

/// What the rest of a read round does once rustls has processed the records and said
/// whether it is still handshaking (`handshaking`), from transport `m` and connection
/// `t` to `m2` and `t2` with result `r`: while handshaking, or once the handshake has
/// completed before, nothing changes; otherwise the handshake completes and each pending
/// chunk, oldest first, is handed whole to the connection; if the connection refuses
/// chunk `k` after taking `j` of its bytes, the round fails with chunk `k` lost.
pub open spec fn completion_post(
    m: TransportModel,
    m2: TransportModel,
    t: TlsConnection,
    t2: TlsConnection,
    handshaking: bool,
    r: Result<Handshake, HandshakeError>,
) -> bool {
    &&& t2.is_client() == t.is_client()
    &&& t2.server_ip() == t.server_ip()
    &&& if handshaking || m.handshake_complete {
        r == Ok::<Handshake, HandshakeError>(Handshake::Pending) && m2 == m && t2 == t
    } else {
        match r {
            Ok(Handshake::Completed { flush_socket }) => {
                &&& m2 == flushed(completed(m))
                &&& m2.pending_size == 0
                &&& flush_socket == (m.pending.len() > 0)
                &&& t2.sent() == t.sent() + m.pending.flatten()
                &&& all_progress(t.answers(), t2.answers())
                &&& !flush_socket ==> t2 == t
            },
            Err(HandshakeError::BufferedWrite) => ends_in_refusal(t.answers(), t2.answers())
                && exists|k: int, j: int|
                0 <= k < m.pending.len() && 0 <= j < m.pending[k].len()
                    && m2 == #[trigger] flush_failed_at(completed(m), k)
                    && t2.sent() == t.sent() + m.pending.take(k).flatten() + #[trigger] m.pending[k].take(j),
            _ => false,
        }
    }
}

/// The answers a read round with processed records adds: rustls accepted the records,
/// then said whether it was still handshaking (`handshaking`); when the round completed
/// the handshake, each buffered chunk's writes were all answered by taking bytes, and when
/// handing the buffer failed, the last write was answered by taking nothing.
pub open spec fn handshake_round(
    before: Seq<TlsAnswer>,
    after: Seq<TlsAnswer>,
    handshaking: bool,
    r: Result<Handshake, HandshakeError>,
) -> bool {
    let asked = before.push(TlsAnswer::Processed(true)).push(TlsAnswer::Handshaking(handshaking));
    match r {
        Ok(Handshake::Completed { .. }) => all_progress(asked, after),
        Err(HandshakeError::BufferedWrite) => ends_in_refusal(asked, after),
        _ => after == asked,
    }
}

/// What reading plaintext for the protocol came to.
#[derive(Clone, Copy, Debug, PartialEq, Eq)]
pub enum RecvOutcome {
    /// Nothing to deliver now.
    Nothing,
    /// This many bytes at the front of the buffer are to be delivered to the protocol.
    Data(usize),
    /// The peer's stream ended (cleanly or not, or reading failed).
    Eof,
}

/// The meaning of a plaintext read: zero bytes is the end of the stream, a blocked
/// read is nothing, any failure is taken as the end of the stream.
pub open spec fn recv_outcome_of(p: PlainRead) -> RecvOutcome {
    match p {
        PlainRead::Read(n) => if n == 0 { RecvOutcome::Eof } else { RecvOutcome::Data(n) },
        PlainRead::WouldBlock => RecvOutcome::Nothing,
        PlainRead::Failed => RecvOutcome::Eof,
    }
}

/// Interprets the outcome of a plaintext read.
pub fn recv_outcome(p: PlainRead) -> (r: RecvOutcome)
    ensures
        r == recv_outcome_of(p),
        p matches PlainRead::Read(n) ==> (n > 0 ==> r == RecvOutcome::Data(n)),
        p == PlainRead::Read(0) ==> r == RecvOutcome::Eof,
        p == PlainRead::WouldBlock ==> r == RecvOutcome::Nothing,
        p == PlainRead::Failed ==> r == RecvOutcome::Eof,
{
    match p {
        PlainRead::Read(0) => RecvOutcome::Eof,
        PlainRead::Read(n) => RecvOutcome::Data(n),
        PlainRead::WouldBlock => RecvOutcome::Nothing,
        PlainRead::Failed => RecvOutcome::Eof,
    }
}

/// The actions that end a write-readiness event, once the socket flush has run:
/// a failed flush reports the connection lost and closes the stream (the stream is
/// closed a second time by the handler, as the event loop expects); otherwise
/// writability stays watched while the connection has records to write, and is
/// dropped when it has none.
pub open spec fn write_ready_actions_of(flush_ok: bool, wants_write: bool) -> Seq<Action> {
    if !flush_ok {
        conn_lost_actions(Some(LostReason::WriteFailed)).push(Action::CloseStream)
    } else if wants_write {
        Seq::empty()
    } else {
        seq![Action::RemoveWriter]
    }
}

/// The actions that end a write-readiness event, given whether the flush succeeded
/// and whether the connection still wants to write.
pub fn write_ready_decision(flush_ok: bool, wants_write: bool) -> (actions: Vec<Action>)
    ensures
        actions@ == write_ready_actions_of(flush_ok, wants_write),
{
    if !flush_ok {
        let mut actions = call_conn_lost(Some(LostReason::WriteFailed));
        actions.push(Action::CloseStream);
        return actions;
    }
    let mut actions: Vec<Action> = Vec::new();
    if wants_write {
        return actions;
    }
    actions.push(Action::RemoveWriter);
    assert(actions@ =~= seq![Action::RemoveWriter]);
    actions
}

/// The end of a write-readiness event, once the socket flush has run (`flush_ok`
/// tells whether it succeeded): after a successful flush the connection is asked
/// whether it still wants to write, and its recorded answer decides.
pub fn write_ready_actions(tls: &mut TlsConnection, flush_ok: bool) -> (actions: Vec<Action>)
    ensures
        !flush_ok ==> actions@ == write_ready_actions_of(false, false) && *final(tls) == *old(tls),
        flush_ok ==> final(tls).answers().len() == old(tls).answers().len() + 1
            && (final(tls).answers().last() matches TlsAnswer::WantsWrite(w)
                && final(tls).answered(&*old(tls), TlsAnswer::WantsWrite(w))
                && actions@ == write_ready_actions_of(true, w)),
{
    if !flush_ok {
        return write_ready_decision(false, false);
    }
    let wants_write = tls.wants_write();
    write_ready_decision(true, wants_write)
}

/// Why the protocol of a transport cannot be replaced.
#[derive(Clone, Copy, Debug, PartialEq, Eq)]
pub enum ProtocolChangeError {
    /// "SSLTransport protocol cannot be changed".
    Unsupported,
}

/// Whether a read round must end the connection: the records could not be read or
/// processed, or the handshake's buffered data could not be flushed to the socket.
pub open spec fn read_round_failed(r: Result<Handshake, HandshakeError>, socket_flush_ok: bool) -> bool {
    r is Err || (r == Ok::<Handshake, HandshakeError>(Handshake::Completed { flush_socket: true })
        && !socket_flush_ok)
}

/// The actions that follow a read round (`do_handshake` and, when it asked for one, the
/// socket flush, which came to `socket_flush_ok`): a failed round reports the connection
/// lost with "SSL handshake failed" and closes the stream, and the read event stops
/// there; otherwise nothing, and the event goes on to read plaintext.
pub fn read_round_actions(r: &Result<Handshake, HandshakeError>, socket_flush_ok: bool) -> (actions: Vec<Action>)
    ensures
        read_round_failed(*r, socket_flush_ok) ==> actions@ == conn_lost_actions(Some(LostReason::HandshakeFailed)),
        !read_round_failed(*r, socket_flush_ok) ==> actions@ == Seq::<Action>::empty(),
        r is Err ==> actions@ == seq![Action::ConnectionLost(Some(LostReason::HandshakeFailed)), Action::CloseStream],
        *r == Ok::<Handshake, HandshakeError>(Handshake::Completed { flush_socket: true }) && !socket_flush_ok
            ==> actions@ == seq![Action::ConnectionLost(Some(LostReason::HandshakeFailed)), Action::CloseStream],
        r is Ok && (socket_flush_ok || *r != Ok::<Handshake, HandshakeError>(Handshake::Completed { flush_socket: true }))
            ==> actions@.len() == 0,
{
    let failed = match r {
        Err(_) => true,
        Ok(Handshake::Completed { flush_socket: true }) => !socket_flush_ok,
        Ok(_) => false,
    };
    if failed {
        call_conn_lost(Some(LostReason::HandshakeFailed))
    } else {
        Vec::new()
    }
}

/// The state of a transport: its flags, limits and the write buffer kept while
/// the handshake is under way.
pub struct TransportState {
    closing: bool,
    paused: bool,
    weof: bool,
    water_hi: usize,
    water_lo: usize,
    proto_buffered: bool,
    handshake_complete: bool,
    write_buf: VecDeque<Vec<u8>>,
    write_buf_dsize: usize,
}

impl View for TransportState {
    type V = TransportModel;

    closed spec fn view(&self) -> TransportModel {
        TransportModel {
            closing: self.closing,
            paused: self.paused,
            eof_written: self.weof,
            water_high: self.water_hi as nat,
            water_low: self.water_lo as nat,
            buffered_protocol: self.proto_buffered,
            handshake_complete: self.handshake_complete,
            pending: self.write_buf@.map_values(|c: Vec<u8>| c@),
            pending_size: self.write_buf_dsize as nat,
        }
    }
}

impl TransportState {
    /// The transport's invariant holds.
    pub open spec fn wf(&self) -> bool {
        self@.wf()
    }

    /// A new transport for a protocol that is buffered or not.
    pub fn new(proto_buffered: bool) -> (s: TransportState)
        ensures
            s@ == initial_model(proto_buffered),
            s.wf(),
    {
        let wh: usize = DEFAULT_WATER_HIGH;
        let s = TransportState {
            closing: false,
            paused: false,
            weof: false,
            water_hi: wh,
            water_lo: wh / 4,
            proto_buffered,
            handshake_complete: false,
            write_buf: VecDeque::new(),
            write_buf_dsize: 0,
        };
        assert(s@.pending =~= Seq::<Seq<u8>>::empty());
        s
    }

    /// Whether the transport is closing.
    pub fn is_closing(&self) -> (r: bool)
        ensures
            r == self@.closing,
    {
        self.closing
    }

    /// Whether the transport is reading: not closing and not paused.
    pub fn is_reading(&self) -> (r: bool)
        ensures
            r == self@.reading(),
            r == (!self@.closing && !self@.paused),
    {
        !self.closing && !self.paused
    }

    /// Whether the protocol is a buffered one.
    pub fn is_proto_buffered(&self) -> (r: bool)
        ensures
            r == self@.buffered_protocol,
    {
        self.proto_buffered
    }

    /// Whether `write_eof` was called.
    pub fn is_write_eof(&self) -> (r: bool)
        ensures
            r == self@.eof_written,
    {
        self.weof
    }

    /// Whether the TLS handshake has completed.
    pub fn is_handshake_complete(&self) -> (r: bool)
        ensures
            r == self@.handshake_complete,
    {
        self.handshake_complete
    }

    /// The number of bytes written by the protocol and not yet handed to TLS.
    pub fn get_write_buffer_size(&self) -> (r: usize)
        ensures
            r == self@.pending_size,
    {
        self.write_buf_dsize
    }

    /// The write-buffer limits as (low, high).
    pub fn get_write_buffer_limits(&self) -> (r: (usize, usize))
        ensures
            r.0 == self@.water_low,
            r.1 == self@.water_high,
    {
        (self.water_lo, self.water_hi)
    }

    /// A TLS transport can always half-close its write side.
    pub fn can_write_eof(&self) -> (r: bool)
        ensures
            r,
    {
        true
    }

    /// Closes the transport.
    pub fn close(&mut self) -> (actions: Vec<Action>)
        requires
            old(self).wf(),
        ensures
            (final(self)@, actions@) == close_step(old(self)@),
            final(self).wf(),
            final(self)@.closing,
            old(self)@.closing ==> actions@.len() == 0 && final(self)@ == old(self)@,
            !old(self)@.closing && old(self)@.pending_size == 0 ==> actions@ == seq![
                Action::RemoveReader,
                Action::ConnectionLost(None),
                Action::CloseStream,
            ],
            !old(self)@.closing && old(self)@.pending_size > 0 ==> actions@ == seq![Action::RemoveReader],
    {
        let mut actions: Vec<Action> = Vec::new();
        if self.closing {
            return actions;
        }
        self.closing = true;
        actions.push(Action::RemoveReader);
        if self.write_buf_dsize == 0 {
            let mut lost = call_conn_lost(None);
            actions.append(&mut lost);
        }
        proof {
            let m = old(self)@;
            assert(final(self)@.pending =~= m.pending);
            if m.pending_size == 0 {
                assert(actions@ =~= seq![Action::RemoveReader] + conn_lost_actions(None));
            } else {
                assert(actions@ =~= seq![Action::RemoveReader] + Seq::<Action>::empty());
            }
        }
        actions
    }
    /// Stops reading.
    pub fn pause_reading(&mut self) -> (actions: Vec<Action>)
        requires
            old(self).wf(),
        ensures
            (final(self)@, actions@) == pause_step(old(self)@),
            final(self).wf(),
    {
        let mut actions: Vec<Action> = Vec::new();
        if self.closing {
            return actions;
        }
        if self.paused {
            return actions;
        }
        self.paused = true;
        actions.push(Action::RemoveReader);
        assert(final(self)@.pending =~= old(self)@.pending);
        actions
    }

    /// Resumes reading.
    pub fn resume_reading(&mut self) -> (actions: Vec<Action>)
        requires
            old(self).wf(),
        ensures
            (final(self)@, actions@) == resume_step(old(self)@),
            final(self).wf(),
    {
        let mut actions: Vec<Action> = Vec::new();
        if self.closing {
            return actions;
        }
        if !self.paused {
            return actions;
        }
        self.paused = false;
        actions.push(Action::AddReader);
        assert(final(self)@.pending =~= old(self)@.pending);
        actions
    }

    /// Half-closes the write side: later writes are refused, and the transport closes.
    pub fn write_eof(&mut self) -> (actions: Vec<Action>)
        requires
            old(self).wf(),
        ensures
            (final(self)@, actions@) == write_eof_step(old(self)@),
            final(self).wf(),
    {
        if self.closing {
            return Vec::new();
        }
        if self.weof {
            return Vec::new();
        }
        self.weof = true;
        assert(self@ == TransportModel { eof_written: true, ..old(self)@ });
        self.close()
    }

    /// Aborts the transport at once, whatever is pending.
    pub fn abort(&mut self) -> (actions: Vec<Action>)
        requires
            old(self).wf(),
        ensures
            (final(self)@, actions@) == abort_step(old(self)@),
            final(self).wf(),
    {
        let mut actions: Vec<Action> = Vec::new();
        if self.write_buf_dsize > 0 {
            actions.push(Action::RemoveWriter);
        }
        let ghost a1 = actions@;
        if !self.closing {
            self.closing = true;
            actions.push(Action::RemoveReader);
        }
        let ghost a2 = actions@;
        let mut lost = call_conn_lost(None);
        actions.append(&mut lost);
        proof {
            let m = old(self)@;
            assert(a1 =~= if m.pending_size > 0 { seq![Action::RemoveWriter] } else { Seq::empty() });
            assert(a2 =~= a1 + if !m.closing { seq![Action::RemoveReader] } else { Seq::empty() });
            assert(actions@ =~= a2 + conn_lost_actions(None));
            assert(final(self)@.pending =~= m.pending);
        }
        actions
    }

    /// Begins a close from the read side; true when the close went through, that is
    /// when the transport was not closing yet and nothing was pending.
    pub fn close_from_read_handle(&mut self) -> (r: (bool, Vec<Action>))
        requires
            old(self).wf(),
        ensures
            (final(self)@, r.0, r.1@) == read_close_step(old(self)@),
            final(self).wf(),
    {
        let mut actions: Vec<Action> = Vec::new();
        if self.closing {
            return (false, actions);
        }
        self.closing = true;
        assert(final(self)@.pending =~= old(self)@.pending);
        if self.write_buf.len() != 0 {
            return (false, actions);
        }
        actions.push(Action::RemoveWriter);
        actions.push(Action::ConnectionLost(None));
        assert(actions@ =~= seq![Action::RemoveWriter, Action::ConnectionLost(None)]);
        (true, actions)
    }

    /// The first step at the end of the peer's stream: stop reading. The driver then
    /// asks the protocol's `eof_received` and hands its answer to `recv_eof`.
    pub fn begin_eof(&self) -> (actions: Vec<Action>)
        ensures
            actions@ == eof_begin_actions(),
    {
        let mut actions: Vec<Action> = Vec::new();
        actions.push(Action::RemoveReader);
        assert(actions@ =~= eof_begin_actions());
        actions
    }

    /// End of stream from the peer, once the protocol's `eof_received` has answered
    /// (`keep_open` is whether its answer was true), after `begin_eof`. True when the
    /// transport closed; the stream is then closed too.
    pub fn recv_eof(&mut self, keep_open: bool) -> (r: (bool, Vec<Action>))
        requires
            old(self).wf(),
        ensures
            (final(self)@, r.0, r.1@) == recv_eof_step(old(self)@, keep_open),
            final(self).wf(),
    {
        if keep_open {
            return (false, Vec::new());
        }
        let (closed, mut actions) = self.close_from_read_handle();
        if closed {
            actions.push(Action::CloseStream);
        }
        (closed, actions)
    }

    /// Sets the write-buffer limits; see `requested_limits` for the missing marks.
    pub fn set_write_buffer_limits(&mut self, high: Option<usize>, low: Option<usize>) -> (r: Result<(), LimitsError>)
        requires
            old(self).wf(),
            limits_computable(high, low),
        ensures
            (final(self)@, r) == set_limits_step(old(self)@, high, low),
            final(self).wf(),
    {
        match compute_limits(high, low) {
            Ok((wh, wl)) => {
                self.water_hi = wh;
                self.water_lo = wl;
                assert(final(self)@.pending =~= old(self)@.pending);
                Ok(())
            },
            Err(e) => Err(e),
        }
    }
    /// Appends a chunk to the write buffer.
    fn push_chunk(&mut self, data: Vec<u8>)
        requires
            old(self).wf(),
            data@.len() > 0,
            write_fits(old(self)@, data@.len()),
        ensures
            final(self)@ == old(self)@.buffer(data@),
            final(self).wf(),
    {
        let ghost d = data@;
        self.write_buf_dsize = self.write_buf_dsize + data.len();
        self.write_buf.push_back(data);
        proof {
            let m = old(self)@;
            lemma_total_len_push(m.pending, d);
            assert(final(self)@.pending =~= m.pending.push(d));
        }
    }

    /// The rest of a write of non-empty `data` after the handshake, once the
    /// connection has answered `w`.
    pub fn apply_plain_write(&mut self, data: &[u8], w: PlainWrite) -> (r: WriteOutcome)
        requires
            old(self).wf(),
            data@.len() > 0,
            w.valid_for(data@.len()),
            write_fits(old(self)@, data@.len()),
        ensures
            (final(self)@, Ok::<WriteOutcome, WriteError>(r)) == tls_write_step(old(self)@, data@, w),
            final(self).wf(),
    {
        match w {
            PlainWrite::Accepted(written) => {
                if written == data.len() {
                    WriteOutcome::FlushSocket
                } else {
                    let remaining = vstd::slice::slice_subrange(data, written, data.len());
                    assert(remaining@ =~= data@.skip(written as int));
                    self.push_chunk(vstd::slice::slice_to_vec(remaining));
                    WriteOutcome::FlushSocket
                }
            },
            PlainWrite::Failed => {
                self.push_chunk(vstd::slice::slice_to_vec(data));
                WriteOutcome::Stored
            },
        }
    }

    /// Writes `data`: see `try_write_step`; `w` there is the connection's answer,
    /// which this call obtains by handing `data` to the connection, on the path that
    /// writes to it. Elsewhere the connection is left untouched.
    pub fn try_write(&mut self, tls: &mut TlsConnection, data: &[u8]) -> (r: Result<WriteOutcome, WriteError>)
        requires
            old(self).wf(),
            !old(self)@.eof_written && data@.len() > 0 ==> write_fits(old(self)@, data@.len()),
        ensures
            exists|w: PlainWrite| #[trigger] w.valid_for(data@.len())
                && (final(self)@, r) == try_write_step(old(self)@, data@, w)
                && final(tls).sent() == old(tls).sent() + written_by_write(old(self)@, data@, w),
            !writes_to_tls(old(self)@, data@) ==> *final(tls) == *old(tls),
            old(self)@.handshake_complete && !old(self)@.eof_written && data@.len() > 0 ==> (
                final(tls).answers().last() matches TlsAnswer::Wrote(w)
                && final(tls).answers() == old(tls).answers().push(TlsAnswer::Wrote(w))
                && w.valid_for(data@.len())
                && final(tls).sent() == old(tls).sent() + w.taken(data@)
                && final(self)@.pending_size == old(self)@.pending_size + data@.len() - w.taken(data@).len()
                && final(self)@.pending == (if w.taken(data@).len() == data@.len() {
                    old(self)@.pending
                } else {
                    old(self)@.pending.push(data@.skip(w.taken(data@).len() as int))
                })
                && r == Ok::<WriteOutcome, WriteError>(if w == PlainWrite::Failed {
                    WriteOutcome::Stored
                } else {
                    WriteOutcome::FlushSocket
                })),
            writes_to_tls(old(self)@, data@) ==> (final(tls).answers().last() matches TlsAnswer::Wrote(w)
                && final(tls).answers() == old(tls).answers().push(TlsAnswer::Wrote(w))
                && w.valid_for(data@.len())
                && (final(self)@, r) == try_write_step(old(self)@, data@, w)
                && final(tls).sent() == old(tls).sent() + w.taken(data@)),
            final(tls).is_client() == old(tls).is_client(),
            final(tls).server_ip() == old(tls).server_ip(),
            final(self).wf(),
    {
        if self.weof {
            assert((self@, Err::<WriteOutcome, WriteError>(WriteError::AfterEof)) == try_write_step(old(self)@, data@, PlainWrite::Failed));
            assert(PlainWrite::Failed.valid_for(data@.len()));
            assert(tls.sent() =~= old(tls).sent() + written_by_write(old(self)@, data@, PlainWrite::Failed));
            return Err(WriteError::AfterEof);
        }
        if data.len() == 0 {
            assert(PlainWrite::Failed.valid_for(data@.len()));
            assert(tls.sent() =~= old(tls).sent() + written_by_write(old(self)@, data@, PlainWrite::Failed));
            return Ok(WriteOutcome::Stored);
        }
        if !self.handshake_complete {
            self.push_chunk(vstd::slice::slice_to_vec(data));
            assert(PlainWrite::Failed.valid_for(data@.len()));
            assert(tls.sent() =~= old(tls).sent() + written_by_write(old(self)@, data@, PlainWrite::Failed));
            return Ok(WriteOutcome::Stored);
        }
        let w = tls.write_plaintext(data);
        let r = self.apply_plain_write(data, w);
        assert(w.valid_for(data@.len()));
        proof {
            assert(data@.skip(0) =~= data@);
            assert(w.taken(data@).len() <= data@.len());
            if let PlainWrite::Accepted(n) = w {
                assert(w.taken(data@).len() == n);
            }
        }
        Ok(r)
    }

    /// Hands the write buffer to the connection, oldest chunk first, each chunk whole.
    /// Ok tells whether there was anything to hand (then the connection's records are to
    /// be flushed to the socket); on a refused chunk it stops, that chunk lost. It runs
    /// once the handshake has completed, which is when the read side calls it.
    fn flush_buffered_data(&mut self, tls: &mut TlsConnection) -> (r: Result<bool, HandshakeError>)
        requires
            old(self).wf(),
            old(self)@.handshake_complete,
        ensures
            final(self).wf(),
            r matches Ok(f) ==> final(self)@ == flushed(old(self)@) && f == (old(self)@.pending.len() > 0)
                && final(tls).sent() == old(tls).sent() + old(self)@.pending.flatten()
                && all_progress(old(tls).answers(), final(tls).answers())
                && (!f ==> *final(tls) == *old(tls)),
            r is Err ==> ends_in_refusal(old(tls).answers(), final(tls).answers()),
            r matches Err(e) ==> e is BufferedWrite && exists|k: int, j: int|
                0 <= k < old(self)@.pending.len() && 0 <= j < old(self)@.pending[k].len()
                    && final(self)@ == #[trigger] flush_failed_at(old(self)@, k)
                    && final(tls).sent() == old(tls).sent() + old(self)@.pending.take(k).flatten()
                        + #[trigger] old(self)@.pending[k].take(j),
            final(tls).is_client() == old(tls).is_client(),
            final(tls).server_ip() == old(tls).server_ip(),
    {
        let ghost m0 = self@;
        if self.write_buf.len() == 0 {
            assert(m0.pending =~= Seq::<Seq<u8>>::empty());
            assert(self@ == flushed(m0));
            assert(tls.sent() =~= old(tls).sent() + m0.pending.flatten());
            assert(tls.answers().take(tls.answers().len() as int) =~= tls.answers());
            return Ok(false);
        }
        let ghost mut k: int = 0;
        assert(m0.pending.take(0) =~= Seq::<Seq<u8>>::empty());
        assert(tls.sent() =~= old(tls).sent() + m0.pending.take(0).flatten());
        assert(tls.answers().take(tls.answers().len() as int) =~= tls.answers());
        while self.write_buf.len() > 0
            invariant
                m0 == old(self)@,
                m0.wf(),
                m0.handshake_complete,
                0 <= k <= m0.pending.len(),
                self@.pending == m0.pending.skip(k),
                self@.pending_size == m0.pending_size - total_len(m0.pending.take(k)),
                self@ == (TransportModel { pending: self@.pending, pending_size: self@.pending_size, ..m0 }),
                self.wf(),
                tls.sent() == old(tls).sent() + m0.pending.take(k).flatten(),
                tls.is_client() == old(tls).is_client(),
                all_progress(old(tls).answers(), tls.answers()),
                tls.server_ip() == old(tls).server_ip(),
            decreases self.write_buf@.len(),
        {
            proof {
                lemma_total_len_take(m0.pending, k);
            }
            let ghost before = self.write_buf@;
            let ghost sent_before = tls.sent();
            let ghost answers_before = tls.answers();
            proof {
                assert(before.map_values(|c: Vec<u8>| c@) == m0.pending.skip(k));
                assert(before[0]@ == before.map_values(|c: Vec<u8>| c@)[0]);
            }
            let data = match self.write_buf.pop_front() {
                Some(d) => d,
                None => { return Ok(true); },
            };
            proof {
                assert(data@ == m0.pending[k]);
                assert forall|i: int| 0 <= i < self@.pending.len() implies #[trigger] self@.pending[i] == m0.pending.skip(k + 1)[i] by {
                    assert(self@.pending[i] == self.write_buf@[i]@);
                    assert(self.write_buf@[i] == before[i + 1]);
                    assert(before[i + 1]@ == before.map_values(|c: Vec<u8>| c@)[i + 1]);
                }
                assert(self@.pending =~= m0.pending.skip(k + 1));
            }
            if !tls.write_all_plaintext(data.as_slice()) {
                proof {
                    assert(self@ == flush_failed_at(m0, k));
                    assert(0 <= k < m0.pending.len());
                    assert(m0 == old(self)@);
                    assert forall|i: int| 0 <= i < self@.pending.len() implies #[trigger] self@.pending[i].len() > 0 by {
                        assert(self@.pending[i] == m0.pending[k + 1 + i]);
                    }
                    lemma_total_len_split(m0.pending, k + 1);
                    lemma_total_len_take(m0.pending, k);
                    lemma_progress_then_refusal(old(tls).answers(), answers_before, tls.answers());
                    let j = choose|j: int| 0 <= j < data@.len() && tls.sent() == sent_before + #[trigger] data@.take(j);
                    assert(0 <= j < m0.pending[k].len() && tls.sent() == old(tls).sent()
                        + m0.pending.take(k).flatten() + m0.pending[k].take(j));
                }
                return Err(HandshakeError::BufferedWrite);
            }
            self.write_buf_dsize = self.write_buf_dsize - data.len();
            proof {
                lemma_all_progress_trans(old(tls).answers(), answers_before, tls.answers());
                assert(m0.pending.take(k + 1) =~= m0.pending.take(k).push(m0.pending[k]));
                m0.pending.take(k).lemma_flatten_push(m0.pending[k]);
                k = k + 1;
                lemma_total_len_take(m0.pending, k - 1);
                lemma_total_len_split(m0.pending, k);
                assert forall|i: int| 0 <= i < self@.pending.len() implies #[trigger] self@.pending[i].len() > 0 by {
                    assert(self@.pending[i] == m0.pending[k + i]);
                }
            }
        }
        proof {
            assert(self@.pending.len() == 0);
            assert(k == m0.pending.len());
            assert(m0.pending.take(k) =~= m0.pending);
            assert(self@.pending =~= Seq::<Seq<u8>>::empty());
            assert(self@ == flushed(m0));
        }
        Ok(true)
    }

    /// The rest of a read round once rustls has processed the records and answered
    /// whether it is still handshaking: the first time it is not, the transport records
    /// the handshake as complete and hands its write buffer to the connection.
    pub fn on_packets_processed(&mut self, tls: &mut TlsConnection, handshaking: bool) -> (r: Result<Handshake, HandshakeError>)
        requires
            old(self).wf(),
        ensures
            final(self).wf(),
            completion_post(old(self)@, final(self)@, *old(tls), *final(tls), handshaking, r),
    {
        if !handshaking && !self.handshake_complete {
            self.handshake_complete = true;
            assert(self@ == completed(old(self)@));
            assert(old(self)@.size_exact());
            return match self.flush_buffered_data(tls) {
                Ok(f) => Ok(Handshake::Completed { flush_socket: f }),
                Err(e) => Err(e),
            };
        }
        Ok(Handshake::Pending)
    }

    /// The rest of a read round once rustls's record processing came to `processed`: a
    /// rejection fails the round with rustls's error and changes nothing more; otherwise
    /// the connection is asked whether it is still handshaking, and the round goes on as
    /// `on_packets_processed` says.
    pub fn on_records_processed(
        &mut self,
        tls: &mut TlsConnection,
        processed: Result<(), rustls::Error>,
    ) -> (r: Result<Handshake, HandshakeError>)
        requires
            old(self).wf(),
        ensures
            final(self).wf(),
            processed matches Err(e) ==> (r matches Err(HandshakeError::Tls(e2)) && e2 == e)
                && final(self)@ == old(self)@ && *final(tls) == *old(tls),
            processed is Ok ==> exists|handshaking: bool|
                #[trigger] completion_post(
                    old(self)@,
                    final(self)@,
                    old(tls).with_answer(TlsAnswer::Handshaking(handshaking)),
                    *final(tls),
                    handshaking,
                    r,
                ),
    {
        match processed {
            Err(e) => Err(HandshakeError::Tls(e)),
            Ok(()) => {
                let handshaking = tls.is_handshaking();
                let r = self.on_packets_processed(tls, handshaking);
                assert(completion_post(
                    old(self)@,
                    self@,
                    old(tls).with_answer(TlsAnswer::Handshaking(handshaking)),
                    *tls,
                    handshaking,
                    r,
                ));
                r
            },
        }
    }

    /// One round of the read side after `read_tls` from the socket came to `read`:
    /// a blocked read does nothing and a failed one is an error, the connection left
    /// unprocessed; otherwise rustls processes the records, a rejection fails the round,
    /// and when rustls reports the handshake done for the first time the transport
    /// records it and hands its write buffer, chunk by chunk, to the connection.
    pub fn do_handshake(&mut self, tls: &mut TlsConnection, read: IoOutcome) -> (r: Result<Handshake, HandshakeError>)
        requires
            old(self).wf(),
        ensures
            final(self).wf(),
            final(tls).is_client() == old(tls).is_client(),
            final(tls).server_ip() == old(tls).server_ip(),
            (r matches Err(HandshakeError::Tls(_))) ==> final(tls).answers()
                == old(tls).answers().push(TlsAnswer::Processed(false)),
            read is Transferred && !(r matches Err(HandshakeError::Tls(_))) ==> exists|handshaking: bool|
                #[trigger] handshake_round(old(tls).answers(), final(tls).answers(), handshaking, r)
                && ((r is Ok && r != Ok::<Handshake, HandshakeError>(Handshake::Pending)
                    || r matches Err(HandshakeError::BufferedWrite))
                    <==> !handshaking && !old(self)@.handshake_complete),
            read is WouldBlock ==> r == Ok::<Handshake, HandshakeError>(Handshake::Pending)
                && final(self)@ == old(self)@ && *final(tls) == *old(tls),
            read is Failed ==> (r matches Err(HandshakeError::Read)) && final(self)@ == old(self)@
                && *final(tls) == *old(tls),
            (r matches Err(HandshakeError::Read)) ==> read is Failed,
            (r matches Err(HandshakeError::Tls(_))) ==> read is Transferred && final(self)@ == old(self)@
                && final(tls).sent() == old(tls).sent(),
            (r matches Ok(Handshake::Pending)) ==> final(self)@ == old(self)@
                && final(tls).sent() == old(tls).sent(),
            r matches Ok(Handshake::Completed { flush_socket }) ==> read is Transferred
                && !old(self)@.handshake_complete
                && final(self)@ == flushed(completed(old(self)@))
                && final(self)@.pending_size == 0
                && flush_socket == (old(self)@.pending.len() > 0)
                && final(tls).sent() == old(tls).sent() + old(self)@.pending.flatten(),
            (r matches Err(HandshakeError::BufferedWrite)) ==> read is Transferred
                && !old(self)@.handshake_complete
                && exists|k: int, j: int| 0 <= k < old(self)@.pending.len() && 0 <= j < old(self)@.pending[k].len()
                    && final(self)@ == #[trigger] flush_failed_at(completed(old(self)@), k)
                    && final(tls).sent() == old(tls).sent() + old(self)@.pending.take(k).flatten()
                        + #[trigger] old(self)@.pending[k].take(j),
    {
        match read {
            IoOutcome::WouldBlock => {
                return Ok(Handshake::Pending);
            },
            IoOutcome::Failed => {
                return Err(HandshakeError::Read);
            },
            IoOutcome::Transferred(_) => {},
        }
        let processed = tls.process_new_packets();
        let ghost t1 = *tls;
        let r = self.on_records_processed(tls, processed);
        proof {
            if processed is Ok {
                let h = choose|h: bool| #[trigger] completion_post(
                    old(self)@,
                    self@,
                    t1.with_answer(TlsAnswer::Handshaking(h)),
                    *tls,
                    h,
                    r,
                );
                t1.lemma_with_answer(TlsAnswer::Handshaking(h));
                assert(handshake_round(old(tls).answers(), tls.answers(), h, r));
            }
        }
        r
    }

    /// Reads plaintext for the protocol into `buf`; nothing before the handshake completes.
    pub fn recv_data(&self, tls: &mut TlsConnection, buf: &mut [u8]) -> (r: RecvOutcome)
        ensures
            final(buf)@.len() == old(buf)@.len(),
            !self@.handshake_complete ==> r == RecvOutcome::Nothing && final(buf)@ == old(buf)@
                && *final(tls) == *old(tls),
            self@.handshake_complete ==> (final(tls).answers().last() matches TlsAnswer::Read(p)
                && final(tls).answered(&*old(tls), TlsAnswer::Read(p))
                && p.valid_for(old(buf)@.len()) && p.buffer_effect(old(buf)@, final(buf)@)
                && r == recv_outcome_of(p)),
            r matches RecvOutcome::Data(n) ==> 0 < n <= old(buf)@.len(),
    {
        if !self.handshake_complete {
            return RecvOutcome::Nothing;
        }
        let p = tls.read_plaintext(buf);
        assert(p.valid_for(old(buf)@.len()));
        recv_outcome(p)
    }

    /// Replacing the protocol of a TLS transport is not supported: always refused.
    pub fn set_protocol(&self) -> (r: Result<(), ProtocolChangeError>)
        ensures
            r == Err::<(), ProtocolChangeError>(ProtocolChangeError::Unsupported),
    {
        Err(ProtocolChangeError::Unsupported)
    }
}

} // verus!
