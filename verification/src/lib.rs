//! The protocol logic of a TLS stream transport for an event loop:
//! the transport's flags, its write buffer and flow-control limits,
//! the handshake and read/write steps over a rustls connection, and the
//! event-loop actions that each step asks its driver to perform.
pub mod action;
pub mod extra;
pub mod laws;
pub mod limits;
pub mod tls;
pub mod transport;

pub use action::{Action, FlushStep, IoOutcome, LostReason, call_conn_lost, flush_step};
pub use extra::{ExtraInfoSource, bytes_eq, extra_info_source, str_eq};
pub use limits::{DEFAULT_WATER_HIGH, LimitsError, compute_limits};
pub use tls::{
    ConfigError, PlainRead, PlainWrite, ServerTlsConfig, TlsConnection, TlsSide, server_config,
    server_config_from,
};
pub use transport::{
    Handshake, HandshakeError, ProtocolChangeError, RecvOutcome, TransportModel, TransportState,
    WriteError, WriteOutcome, read_round_actions, recv_outcome, write_ready_actions,
    write_ready_decision,
};
