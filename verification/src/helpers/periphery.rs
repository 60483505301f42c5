//! Selection of the client for the agent of a server.

use vstd::prelude::*;

use crate::config::CoreConfig;
use crate::entities::server::{copy_headers, RequestHeader, Server};
use crate::error::ServerDisabled;

verus! {

/// What a client for the agent of one server is bound to. It holds no state
/// beyond that, so one is made afresh for every use and sees the server's
/// configuration as it is then.
#[derive(Debug, Clone)]
pub struct PeripheryClient {
    /// The base address of the agent.
    pub address: String,
    /// The passkey that authenticates the core to the agent.
    pub passkey: String,
    /// The headers sent with every request.
    pub request_headers: Vec<RequestHeader>,
    /// The timeout of a request, in seconds.
    pub timeout_seconds: u64,
}

/// The passkey that reaches an agent: the server's own where it has one, else
/// the passkey shared through the core configuration.
pub open spec fn effective_passkey(own: Seq<char>, shared: Seq<char>) -> Seq<char> {
    if own.len() == 0 {
        shared
    } else {
        own
    }
}

/// The request timeout for a configured number of seconds: the number itself
/// where it is not negative, else its two's complement reading as an unsigned
/// number.
pub open spec fn request_timeout(seconds: i64) -> int {
    if seconds >= 0 {
        seconds as int
    } else {
        seconds + 0x1_0000_0000_0000_0000
    }
}

/// The number of seconds as an unsigned number.
fn timeout_from(seconds: i64) -> (timeout: u64)
    ensures
        timeout == request_timeout(seconds),
{
    let timeout = seconds as u64;
    assert(seconds >= 0 ==> timeout == seconds) by (bit_vector)
        requires
            timeout == seconds as u64,
    ;
    assert(seconds < 0 ==> timeout == seconds + 0x1_0000_0000_0000_0000) by (bit_vector)
        requires
            timeout == seconds as u64,
    ;
    timeout
}

/// The client for the agent of `server`.
///
/// A disabled server is refused, and only a disabled server. Else the client
/// is bound to the server's address, to the server's passkey or, where that
/// is empty, to the passkey of `config`, to the server's request headers as
/// they are, and to the server's timeout.
pub fn periphery_client(server: &Server, config: &CoreConfig) -> (client: Result<
    PeripheryClient,
    ServerDisabled,
>)
    ensures
        !server.config.enabled <==> client is Err,
        client matches Ok(bound) ==> {
            &&& bound.address@ == server.config.address@
            &&& bound.passkey@ == effective_passkey(server.config.passkey@, config.passkey@)
            &&& bound.request_headers@ == server.config.request_headers@
            &&& bound.timeout_seconds == request_timeout(server.config.timeout_seconds)
        },
{
    if !server.config.enabled {
        return Err(ServerDisabled);
    }
    let passkey = if server.config.passkey.as_str().is_empty() {
        config.passkey.clone()
    } else {
        server.config.passkey.clone()
    };
    Ok(
        PeripheryClient {
            address: server.config.address.clone(),
            passkey,
            request_headers: copy_headers(&server.config.request_headers),
            timeout_seconds: timeout_from(server.config.timeout_seconds),
        },
    )
}

} // verus!
