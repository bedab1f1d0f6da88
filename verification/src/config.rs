//! The resolved server configuration.
//!
//! The configuration is constructed once at startup from the optional
//! values found in the configuration table, is immutable for the lifetime
//! of the server, and is shared read-only by every connection handler.

use vstd::prelude::*;

verus! {

/// TCP port the server listens on when the configuration names none.
pub const DEFAULT_PORT: u16 = 17;

/// The resolved, validated configuration.  Immutable after construction:
/// handlers only ever read it, so it is shared without locking.
pub struct Conf {
    /// Path or name of the executable run once per connection; the empty
    /// string means no executable is configured.
    pub execute: String,
    /// Arguments passed verbatim to the executable.
    pub args: Vec<String>,
    /// Static fallback message, sent when no executable is configured;
    /// the empty string is valid and yields an empty response.
    pub message: String,
    /// TCP port the dispatcher binds.
    pub port: u16,
}

impl Conf {
    /// A configuration is well formed when its port is a valid TCP port.
    pub open spec fn wf(self) -> bool {
        self.port >= 1
    }
}

/// Accept a port number as the configuration table stores it, as a signed
/// 64-bit integer: valid exactly for the TCP ports 1 through 65535.
pub fn checked_port(p: i64) -> (r: Option<u16>)
    ensures
        r is Some <==> 1 <= p <= 65535,
        r matches Some(v) ==> v == p,
{
    if 1 <= p && p <= 65535 {
        Some(p as u16)
    } else {
        None
    }
}

/// Build the configuration from the optional values found in the
/// configuration table, applying the documented defaults: port
/// [`DEFAULT_PORT`], no executable, no arguments, empty message.
pub fn resolve(
    port: Option<u16>,
    execute: Option<String>,
    args: Option<Vec<String>>,
    message: Option<String>,
) -> (c: Conf)
    requires
        port matches Some(p) ==> p >= 1,
    ensures
        c.wf(),
        port matches Some(p) ==> c.port == p,
        port is None ==> c.port == DEFAULT_PORT,
        execute matches Some(e) ==> c.execute@ == e@,
        execute is None ==> c.execute@.len() == 0,
        args matches Some(a) ==> c.args@ == a@,
        args is None ==> c.args@.len() == 0,
        message matches Some(m) ==> c.message@ == m@,
        message is None ==> c.message@.len() == 0,
{
    let port_v: u16 = match port {
        Some(p) => p,
        None => DEFAULT_PORT,
    };
    let execute_v: String = match execute {
        Some(s) => s,
        None => String::new(),
    };
    let args_v: Vec<String> = match args {
        Some(a) => a,
        None => Vec::new(),
    };
    let message_v: String = match message {
        Some(s) => s,
        None => String::new(),
    };
    Conf { execute: execute_v, args: args_v, message: message_v, port: port_v }
}

} // verus!
