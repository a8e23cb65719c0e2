use vstd::prelude::*;

verus! {

/// Whether two byte strings are equal.
pub fn bytes_eq(a: &[u8], b: &[u8]) -> (r: bool)
    ensures
        r == (a@ == b@),
{
    if a.len() != b.len() {
        return false;
    }
    let mut i: usize = 0;
    while i < a.len()
        invariant
            a@.len() == b@.len(),
            0 <= i <= a@.len(),
            forall|j: int| 0 <= j < i ==> a@[j] == b@[j],
        decreases a@.len() - i,
    {
        if a[i] != b[i] {
            return false;
        }
        i = i + 1;
    }
    assert(a@ =~= b@);
    true
}

/// Whether two strings are equal.
pub fn str_eq(a: &str, b: &str) -> (r: bool)
    ensures
        r == (a@ == b@),
{
    let eq = bytes_eq(a.as_bytes(), b.as_bytes());
    proof {
        if eq {
            vstd::utf8::encode_utf8_decode_utf8(a@);
            vstd::utf8::encode_utf8_decode_utf8(b@);
        }
    }
    eq
}

/// Where `get_extra_info` finds the value of a name.
#[derive(Clone, Copy, Debug, PartialEq, Eq)]
pub enum ExtraInfoSource {
    /// "socket": the transport's socket object.
    Socket,
    /// "sockname": the socket's `getsockname()`, or nothing if it fails.
    SockName,
    /// "peername": the socket's `getpeername()`, or nothing if it fails.
    PeerName,
    /// "sslcontext": the stored SSL context, or `None` when there is none.
    SslContext,
    /// "server_hostname": the stored server host name, or nothing (the default is not used).
    ServerHostname,
    /// Any other name: the stored extra value of that name, or the caller's default.
    Extra,
}

/// The source of each name that `get_extra_info` answers.
pub open spec fn extra_info_source_of(name: Seq<char>) -> ExtraInfoSource {
    if name == "socket"@ {
        ExtraInfoSource::Socket
    } else if name == "sockname"@ {
        ExtraInfoSource::SockName
    } else if name == "peername"@ {
        ExtraInfoSource::PeerName
    } else if name == "sslcontext"@ {
        ExtraInfoSource::SslContext
    } else if name == "server_hostname"@ {
        ExtraInfoSource::ServerHostname
    } else {
        ExtraInfoSource::Extra
    }
}

/// Where `get_extra_info(name)` finds its answer.
pub fn extra_info_source(name: &str) -> (r: ExtraInfoSource)
    ensures
        r == extra_info_source_of(name@),
{
    if str_eq(name, "socket") {
        ExtraInfoSource::Socket
    } else if str_eq(name, "sockname") {
        ExtraInfoSource::SockName
    } else if str_eq(name, "peername") {
        ExtraInfoSource::PeerName
    } else if str_eq(name, "sslcontext") {
        ExtraInfoSource::SslContext
    } else if str_eq(name, "server_hostname") {
        ExtraInfoSource::ServerHostname
    } else {
        ExtraInfoSource::Extra
    }
}

} // verus!
