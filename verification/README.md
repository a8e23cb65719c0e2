# rloop_ssl

The TLS stream transport of an event loop, with its logic verified by Verus.

- `src/` is the verified library:
  - `transport.rs`: the transport's state (`TransportState`) and its model
    (`TransportModel`): the closing/paused/EOF flags, the write-buffer limits, the
    write buffer kept until the handshake completes, and each operation as a step
    function from model to model and event-loop actions (`close`, `abort`,
    `write_eof`, `pause_reading`, `resume_reading`, `set_write_buffer_limits`,
    `try_write`, `do_handshake`, `recv_data`, `recv_eof`, ...).
  - `tls.rs`: the rustls connection on either side, the server configuration with a
    generated self-signed certificate, and the trusted wrappers over rustls and rcgen.
  - `action.rs`: the actions the driver performs, and the socket-flush loop decision.
  - `limits.rs`: the water marks a `set_write_buffer_limits` request names.
  - `extra.rs`: where `get_extra_info` finds each name.
  - `laws.rs`: properties that relate several operations, proved over the step functions.
- `app/` is the unverified driver: the Python class, the socket I/O (`read_tls`,
  `write_tls`), the protocol callbacks, and the event-loop actions.
- `tests/` runs the library, including full in-memory TLS handshakes.
