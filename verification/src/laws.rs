use vstd::prelude::*;

use crate::action::{Action, LostReason, conn_lost_actions};
use crate::limits::{LimitsError, limits_computable, requested_limits};
use crate::tls::{PlainRead, PlainWrite};
use crate::transport::{
    Handshake, HandshakeError, RecvOutcome, TransportModel, WriteError, WriteOutcome, abort_step,
    read_round_failed, recv_outcome_of, writes_to_tls, close_step, completed, eof_actions, flush_failed_at,
    flushed, lemma_total_len_push, lemma_total_len_split, lemma_total_len_take, pause_step,
    read_close_step, recv_eof_step, resume_step, set_limits_step, total_len, try_write_step,
    write_eof_step, written_by_write,
};

verus! {

/// Closing twice is closing once: the second `close` changes nothing and asks for nothing.
pub proof fn law_close_idempotent(m: TransportModel)
    ensures
        close_step(close_step(m).0) == (close_step(m).0, Seq::<Action>::empty()),
        close_step(m).0.closing,
{
}

/// After `close`, `abort`, or a first `write_eof` on an open transport, the transport is not reading.
pub proof fn law_not_reading_after_close(m: TransportModel)
    ensures
        !close_step(m).0.reading(),
        !abort_step(m).0.reading(),
        !m.closing && !m.eof_written ==> !write_eof_step(m).0.reading(),
{
}

/// Pausing an open, reading transport and resuming it restores it exactly; the
/// reader is removed, then added back.
pub proof fn law_pause_resume_roundtrip(m: TransportModel)
    requires
        m.reading(),
    ensures
        pause_step(m).1 == seq![Action::RemoveReader],
        !pause_step(m).0.reading(),
        resume_step(pause_step(m).0) == (m, seq![Action::AddReader]),
{
    assert(resume_step(pause_step(m).0).0 == m);
}

/// A closing transport ignores pause and resume.
pub proof fn law_closing_ignores_flow_control(m: TransportModel)
    requires
        m.closing,
    ensures
        pause_step(m) == (m, Seq::<Action>::empty()),
        resume_step(m) == (m, Seq::<Action>::empty()),
{
}

/// Limits read back as they were set: after an accepted `set_write_buffer_limits`
/// the transport reports the requested (low, high), with low not above high; a refused
/// request leaves the limits as they were.
pub proof fn law_limits_read_after_write(m: TransportModel, high: Option<usize>, low: Option<usize>)
    requires
        m.wf(),
        limits_computable(high, low),
    ensures
        set_limits_step(m, high, low).1 is Ok ==> set_limits_step(m, high, low).0.water_low
            == requested_limits(high, low).1 && set_limits_step(m, high, low).0.water_high
            == requested_limits(high, low).0,
        set_limits_step(m, high, low).1 is Err ==> set_limits_step(m, high, low).0 == m,
        set_limits_step(m, high, low).0.wf(),
{
}

/// The default-derived marks: no high mark means four times the low one (or the
/// default), and no low mark means a quarter of the high one.
pub proof fn law_limits_defaults(v: usize)
    ensures
        requested_limits(None, None) == (65536int, 16384int),
        requested_limits(Some(v), None) == (v as int, v as int / 4),
        requested_limits(None, Some(v)) == (4 * v as int, v as int),
{
}

/// After `write_eof` nothing more can be written: every write is refused and changes nothing.
pub proof fn law_no_write_after_eof(m: TransportModel, data: Seq<u8>, w: PlainWrite)
    requires
        !m.closing,
    ensures
        write_eof_step(m).0.eof_written || m.eof_written,
        write_eof_step(m).0.eof_written ==> try_write_step(write_eof_step(m).0, data, w) == (
            write_eof_step(m).0,
            Err::<crate::transport::WriteOutcome, WriteError>(WriteError::AfterEof),
        ),
{
}

/// `abort` always ends by reporting the connection lost and closing the stream, and
/// leaves the transport closing.
pub proof fn law_abort_reports_lost(m: TransportModel)
    ensures
        abort_step(m).0.closing,
        abort_step(m).1.len() >= 2,
        abort_step(m).1.subrange(abort_step(m).1.len() - 2, abort_step(m).1.len() as int)
            == conn_lost_actions(None),
{
    let a = abort_step(m).1;
    assert(a.subrange(a.len() - 2, a.len() as int) =~= conn_lost_actions(None));
}

/// The read side closes a transport only when nothing waits in the write buffer, and
/// only once.
pub proof fn law_read_close_needs_empty_buffer(m: TransportModel)
    ensures
        read_close_step(m).1 ==> m.pending.len() == 0 && !m.closing,
        read_close_step(m).0.closing,
        !read_close_step(read_close_step(m).0).1,
{
}

/// Every write keeps the invariant, whatever the connection answers.
pub proof fn law_write_keeps_invariant(m: TransportModel, data: Seq<u8>, w: PlainWrite)
    requires
        m.wf(),
        w.valid_for(data.len()),
    ensures
        try_write_step(m, data, w).0.wf(),
{
    let r = try_write_step(m, data, w).0;
    if r != m {
        let d = r.pending.last();
        assert(r.pending == m.pending.push(d));
        lemma_total_len_push(m.pending, d);
        assert forall|i: int| 0 <= i < r.pending.len() implies #[trigger] r.pending[i].len() > 0 by {
            if i < m.pending.len() {
                assert(r.pending[i] == m.pending[i]);
            }
        }
    }
}

/// The reported write-buffer size is the number of bytes waiting: writes keep the
/// two equal, whatever the connection answers, and so does handing the whole buffer
/// to the connection.
pub proof fn law_size_counts_pending(m: TransportModel, data: Seq<u8>, w: PlainWrite)
    requires
        m.wf(),
        m.size_exact(),
        w.valid_for(data.len()),
    ensures
        try_write_step(m, data, w).0.size_exact(),
        flushed(m).size_exact(),
        flushed(m).pending_size == 0,
{
    let r = try_write_step(m, data, w).0;
    if r != m {
        let d = r.pending.last();
        assert(r.pending == m.pending.push(d));
        lemma_total_len_push(m.pending, d);
    }
    assert(total_len(Seq::<Seq<u8>>::empty()) == 0);
}

/// When the connection refuses a chunk while the write buffer is handed to it, that
/// chunk is lost but still counted: the reported size exceeds the waiting bytes by
/// exactly its length.
pub proof fn law_failed_flush_counts_lost_chunk(m: TransportModel, k: int)
    requires
        m.wf(),
        m.size_exact(),
        0 <= k < m.pending.len(),
    ensures
        flush_failed_at(m, k).pending_size == total_len(flush_failed_at(m, k).pending)
            + m.pending[k].len(),
{
    lemma_total_len_take(m.pending, k);
    lemma_total_len_split(m.pending, k + 1);
}

/// Every byte of an accepted write is accounted for: what the connection took plus what
/// the write buffer gained is the whole of the data.
pub proof fn law_write_accounts_every_byte(m: TransportModel, data: Seq<u8>, w: PlainWrite)
    requires
        !m.eof_written,
        w.valid_for(data.len()),
    ensures
        written_by_write(m, data, w).len() + (try_write_step(m, data, w).0.pending_size - m.pending_size)
            == data.len(),
{
}

/// At the end of the peer's stream, reading always stops first. When the protocol keeps
/// the transport open nothing more happens; otherwise the read side's close follows,
/// and a close that goes through ends by closing the stream.
pub proof fn law_eof_stops_reading_first(m: TransportModel, keep_open: bool)
    ensures
        eof_actions(m, keep_open)[0] == Action::RemoveReader,
        keep_open ==> eof_actions(m, keep_open) == seq![Action::RemoveReader] && recv_eof_step(m, keep_open).0 == m,
        recv_eof_step(m, keep_open).1 ==> eof_actions(m, keep_open) == seq![
            Action::RemoveReader,
            Action::RemoveWriter,
            Action::ConnectionLost(None),
            Action::CloseStream,
        ],
{
    assert(eof_actions(m, keep_open)[0] == Action::RemoveReader);
    if keep_open {
        assert(eof_actions(m, keep_open) =~= seq![Action::RemoveReader]);
    }
    if recv_eof_step(m, keep_open).1 {
        assert(eof_actions(m, keep_open) =~= seq![
            Action::RemoveReader,
            Action::RemoveWriter,
            Action::ConnectionLost(None),
            Action::CloseStream,
        ]);
    }
}

/// Once a transport is closing it stays closing: no operation sets it back.
pub proof fn law_closing_never_reverts(
    m: TransportModel,
    high: Option<usize>,
    low: Option<usize>,
    data: Seq<u8>,
    w: PlainWrite,
    keep_open: bool,
    k: int,
)
    requires
        m.closing,
    ensures
        close_step(m).0.closing,
        abort_step(m).0.closing,
        write_eof_step(m).0.closing,
        pause_step(m).0.closing,
        resume_step(m).0.closing,
        read_close_step(m).0.closing,
        recv_eof_step(m, keep_open).0.closing,
        set_limits_step(m, high, low).0.closing,
        try_write_step(m, data, w).0.closing,
        flushed(completed(m)).closing,
        flush_failed_at(completed(m), k).closing,
{
}

/// The operations that can begin a close and report the connection lost: `close`, the
/// read side's close, and `write_eof`.
pub enum ClosingOp {
    Close,
    ReadClose,
    WriteEof,
}

/// How many of `actions` report the connection lost.
pub open spec fn lost_count(actions: Seq<Action>) -> nat
    decreases actions.len(),
{
    if actions.len() == 0 {
        0
    } else {
        (if actions[0] is ConnectionLost { 1nat } else { 0nat }) + lost_count(actions.drop_first())
    }
}

/// One closing operation: the transport after it and the actions it asks for.
pub open spec fn closing_op_step(m: TransportModel, op: ClosingOp) -> (TransportModel, Seq<Action>) {
    match op {
        ClosingOp::Close => close_step(m),
        ClosingOp::ReadClose => (read_close_step(m).0, read_close_step(m).2),
        ClosingOp::WriteEof => write_eof_step(m),
    }
}

/// How many times a run of closing operations reports the connection lost.
pub open spec fn lost_reports(m: TransportModel, ops: Seq<ClosingOp>) -> nat
    decreases ops.len(),
{
    if ops.len() == 0 {
        0
    } else {
        let (m2, actions) = closing_op_step(m, ops[0]);
        lost_count(actions) + lost_reports(m2, ops.drop_first())
    }
}

/// One closing operation reports the loss at most once, only from a transport not yet
/// closing, and then leaves it closing; the read side's close returns true exactly when
/// it reports.
pub proof fn lemma_closing_op(m: TransportModel, op: ClosingOp)
    ensures
        lost_count(closing_op_step(m, op).1) <= 1,
        lost_count(closing_op_step(m, op).1) == 1 ==> closing_op_step(m, op).0.closing,
        m.closing ==> lost_count(closing_op_step(m, op).1) == 0 && closing_op_step(m, op).0.closing,
        read_close_step(m).1 <==> lost_count(read_close_step(m).2) == 1,
{
    reveal_with_fuel(lost_count, 5);
    let lost = seq![Action::RemoveReader, Action::ConnectionLost(None), Action::CloseStream];
    assert(seq![Action::RemoveReader] + conn_lost_actions(None) =~= lost);
    assert(seq![Action::RemoveReader] + Seq::<Action>::empty() =~= seq![Action::RemoveReader]);
    assert(lost_count(lost) == 1);
    assert(lost_count(seq![Action::RemoveReader]) == 0);
    assert(lost_count(seq![Action::RemoveWriter, Action::ConnectionLost(None)]) == 1);
    assert(lost_count(Seq::<Action>::empty()) == 0);
}

/// Across any run of `close`, read-side closes and `write_eof` (no `abort`), the
/// connection is reported lost at most once, and never from a transport already
/// closing; so the read side's close returns true at most once too.
pub proof fn law_loss_reported_at_most_once(m: TransportModel, ops: Seq<ClosingOp>)
    ensures
        lost_reports(m, ops) <= if m.closing { 0nat } else { 1nat },
    decreases ops.len(),
{
    if ops.len() > 0 {
        let (m2, actions) = closing_op_step(m, ops[0]);
        lemma_closing_op(m, ops[0]);
        law_loss_reported_at_most_once(m2, ops.drop_first());
    }
}

/// Every failed read round is reported: whatever went wrong (the socket read, rustls
/// rejecting the records, or handing the buffered writes to rustls), and a completion
/// whose socket flush failed, all end the connection; a successful round never does.
pub proof fn law_failed_read_round_is_reported(r: Result<Handshake, HandshakeError>, socket_flush_ok: bool)
    ensures
        r is Err ==> read_round_failed(r, socket_flush_ok),
        r == Ok::<Handshake, HandshakeError>(Handshake::Completed { flush_socket: true }) && !socket_flush_ok
            ==> read_round_failed(r, socket_flush_ok),
        r == Ok::<Handshake, HandshakeError>(Handshake::Pending) ==> !read_round_failed(r, socket_flush_ok),
        r == Ok::<Handshake, HandshakeError>(Handshake::Completed { flush_socket: false })
            ==> !read_round_failed(r, socket_flush_ok),
        socket_flush_ok && r is Ok ==> !read_round_failed(r, socket_flush_ok),
        conn_lost_actions(Some(LostReason::HandshakeFailed)) == seq![
            Action::ConnectionLost(Some(LostReason::HandshakeFailed)),
            Action::CloseStream,
        ],
{
}

/// Plaintext read from the connection is delivered whole: a read of `n > 0` bytes
/// delivers exactly `n` bytes, a read of 0 bytes is the end of the stream, a blocked read
/// delivers nothing.
pub proof fn law_read_delivers_every_byte(n: usize)
    ensures
        n > 0 ==> recv_outcome_of(PlainRead::Read(n)) == RecvOutcome::Data(n),
        recv_outcome_of(PlainRead::Read(0)) == RecvOutcome::Eof,
        recv_outcome_of(PlainRead::WouldBlock) == RecvOutcome::Nothing,
{
}

/// Once the handshake has completed, every non-empty write before `write_eof` goes to
/// the connection, whatever its length: what rustls takes is sent, only the rest waits in
/// the write buffer, and when rustls takes it all the buffer is unchanged and the records
/// are to be flushed. Before the handshake, the whole write waits in the buffer and
/// nothing goes to the connection.
pub proof fn law_writes_go_to_tls_after_handshake(m: TransportModel, data: Seq<u8>, w: PlainWrite)
    requires
        !m.eof_written,
        data.len() > 0,
        w.valid_for(data.len()),
    ensures
        m.handshake_complete ==> writes_to_tls(m, data) && written_by_write(m, data, w) == w.taken(data)
            && try_write_step(m, data, w).0.pending_size == m.pending_size + data.len() - w.taken(data).len(),
        m.handshake_complete && w.taken(data).len() == data.len() ==> try_write_step(m, data, w) == (
            m,
            Ok::<WriteOutcome, WriteError>(WriteOutcome::FlushSocket),
        ),
        m.handshake_complete && (w is Accepted) ==> try_write_step(m, data, w).1
            == Ok::<WriteOutcome, WriteError>(WriteOutcome::FlushSocket),
        !m.handshake_complete ==> !writes_to_tls(m, data) && written_by_write(m, data, w) == Seq::<u8>::empty()
            && try_write_step(m, data, w).0.pending == m.pending.push(data)
            && try_write_step(m, data, w).1 == Ok::<WriteOutcome, WriteError>(WriteOutcome::Stored),
{
    if let PlainWrite::Accepted(n) = w {
        assert(w.taken(data).len() == n);
    }
}

/// Closing an open transport always stops reading and, when nothing waits in the write
/// buffer, reports the loss and closes the stream, whether or not the handshake has
/// completed; with data waiting it only stops reading.
pub proof fn law_close_reports_loss_when_idle(m: TransportModel)
    ensures
        !m.closing && m.pending_size == 0 ==> close_step(m).1 == seq![
            Action::RemoveReader,
            Action::ConnectionLost(None),
            Action::CloseStream,
        ],
        !m.closing && m.pending_size > 0 ==> close_step(m).1 == seq![Action::RemoveReader],
        m.closing ==> close_step(m).1 == Seq::<Action>::empty(),
        close_step(m).0.closing,
{
    assert(seq![Action::RemoveReader] + conn_lost_actions(None) =~= seq![
        Action::RemoveReader,
        Action::ConnectionLost(None),
        Action::CloseStream,
    ]);
    assert(seq![Action::RemoveReader] + Seq::<Action>::empty() =~= seq![Action::RemoveReader]);
}

/// A transport reads exactly when it is neither closing nor paused; the handshake plays
/// no part: completing it does not change reading, and pausing then resuming an open,
/// unpaused transport reads again, before or after the handshake.
pub proof fn law_reading_is_open_and_unpaused(m: TransportModel)
    ensures
        m.reading() == (!m.closing && !m.paused),
        crate::transport::completed(m).reading() == m.reading(),
        !m.closing && !m.paused ==> m.reading() && !pause_step(m).0.reading()
            && resume_step(pause_step(m).0).0.reading()
            && resume_step(pause_step(m).0).0 == m,
{
    if !m.closing && !m.paused {
        assert(resume_step(pause_step(m).0).0 == m);
    }
}

} // verus!
