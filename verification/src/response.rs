//! The response source: what one connection is owed.
//!
//! A connection's reply comes from one of two variants: when an executable
//! is configured, its captured standard output; otherwise the configured
//! static message, encoded as bytes.  The response is computed fresh for
//! every connection and never cached.

use vstd::prelude::*;
use vstd::string::StrSliceExecFns;
use vstd::utf8::encode_utf8;
use crate::config::Conf;

verus! {

/// An executable is used whenever one is configured, that is whenever
/// `execute` is non-empty; otherwise the static message is sent.
pub open spec fn uses_executable(c: Conf) -> bool {
    c.execute@.len() > 0
}

/// The bytes of the static message, exactly as they go onto the wire.
pub open spec fn static_bytes(c: Conf) -> Seq<u8> {
    encode_utf8(c.message@)
}

/// The server's error taxonomy.  The first two occur before any
/// connection is accepted and abort startup; the rest are confined to a
/// single accept call or connection and never stop the server.
#[derive(Debug, PartialEq, Eq)]
pub enum ServerError {
    /// The configuration was malformed or unreadable.
    ConfigurationFatal,
    /// The listening socket could not be acquired.
    BindFatal,
    /// One accept call failed; the accept loop continues.
    AcceptTransient,
    /// The configured executable could not be run for one connection.
    Execution,
    /// One connection's response could not be fully delivered.
    Write,
}

impl ServerError {
    /// Whether this error aborts the whole server, as opposed to being
    /// confined to a single accept call or connection.
    pub open spec fn spec_is_fatal(self) -> bool {
        match self {
            ServerError::ConfigurationFatal => true,
            ServerError::BindFatal => true,
            ServerError::AcceptTransient => false,
            ServerError::Execution => false,
            ServerError::Write => false,
        }
    }

    /// Executable form of [`ServerError::spec_is_fatal`].
    pub fn is_fatal(&self) -> (r: bool)
        ensures
            r == self.spec_is_fatal(),
    {
        match self {
            ServerError::ConfigurationFatal => true,
            ServerError::BindFatal => true,
            ServerError::AcceptTransient => false,
            ServerError::Execution => false,
            ServerError::Write => false,
        }
    }
}

/// Which variant of the response source a connection uses.
#[derive(Debug, PartialEq, Eq)]
pub enum ResponsePlan {
    /// Run the configured executable and send its captured output.
    RunConfiguredExecutable,
    /// Send the configured static message.
    SendStatic,
}

/// What the operating system reported after the executable was invoked:
/// either its captured standard output together with its exit code, or a
/// failure to start it at all.
pub enum ExecOutcome {
    /// The process ran to completion; `stdout` is everything it wrote to
    /// its standard output, `exit_code` its exit code if one was set.
    Captured { stdout: Vec<u8>, exit_code: Option<i32> },
    /// The process could not be spawned or its output not captured.
    SpawnFailed,
}

/// The response owed to one connection, as a function of the configuration
/// and — when an executable is configured — of what running it produced.
/// A non-zero exit code is not an error: only a failed spawn is.
pub open spec fn connection_response(c: Conf, ev: ExecOutcome) -> Result<Seq<u8>, ServerError> {
    if uses_executable(c) {
        match ev {
            ExecOutcome::Captured { stdout, exit_code } => Ok(stdout@),
            ExecOutcome::SpawnFailed => Err(ServerError::Execution),
        }
    } else {
        Ok(static_bytes(c))
    }
}

/// Select the response-source variant for this configuration.
pub fn response_plan(c: &Conf) -> (p: ResponsePlan)
    ensures
        p is RunConfiguredExecutable <==> uses_executable(*c),
        p is SendStatic <==> !uses_executable(*c),
{
    if c.execute.as_str().is_empty() {
        ResponsePlan::SendStatic
    } else {
        ResponsePlan::RunConfiguredExecutable
    }
}

/// The static response: the configured message encoded as bytes.  This
/// path cannot fail.
pub fn static_response(c: &Conf) -> (r: Vec<u8>)
    ensures
        r@ == static_bytes(*c),
{
    c.message.as_str().as_bytes_vec()
}

/// When no executable is configured, every connection is owed exactly the
/// configured message's bytes, whatever happened elsewhere on the machine;
/// an empty message yields an empty response.
pub proof fn lemma_static_message_served(c: Conf, ev: ExecOutcome)
    requires
        !uses_executable(c),
    ensures
        connection_response(c, ev) == Ok::<Seq<u8>, ServerError>(static_bytes(c)),
        c.message@.len() == 0 ==> static_bytes(c).len() == 0,
{
    if c.message@.len() == 0 {
        assert(static_bytes(c) =~= Seq::<u8>::empty());
    }
}

/// When an executable is configured and it ran, the connection is owed
/// exactly the captured standard output, regardless of the exit code.
pub proof fn lemma_captured_output_served(c: Conf, stdout: Vec<u8>, exit_code: Option<i32>)
    requires
        uses_executable(c),
    ensures
        connection_response(c, ExecOutcome::Captured { stdout, exit_code })
            == Ok::<Seq<u8>, ServerError>(stdout@),
{
}

/// Against a static-message configuration, concurrent connections are
/// independent: every connection is owed the same full message, whatever
/// the machine reported for any of them.
pub proof fn lemma_static_clients_agree(c: Conf, ev1: ExecOutcome, ev2: ExecOutcome)
    requires
        !uses_executable(c),
    ensures
        connection_response(c, ev1) == connection_response(c, ev2),
        connection_response(c, ev1) == Ok::<Seq<u8>, ServerError>(static_bytes(c)),
{
}

/// A failure to run the executable is an execution error for that one
/// connection, and no per-connection error is fatal to the server: the
/// listener stays bound and later connections are still served.
pub proof fn lemma_execution_failure_confined(c: Conf)
    requires
        uses_executable(c),
    ensures
        connection_response(c, ExecOutcome::SpawnFailed)
            == Err::<Seq<u8>, ServerError>(ServerError::Execution),
        !ServerError::Execution.spec_is_fatal(),
        !ServerError::Write.spec_is_fatal(),
        !ServerError::AcceptTransient.spec_is_fatal(),
{
}

/// Turn what the operating system reported into this connection's
/// response: the captured standard output verbatim, whatever the exit
/// code; an execution error exactly when the spawn failed.
pub fn response_after_execution(out: ExecOutcome) -> (r: Result<Vec<u8>, ServerError>)
    ensures
        out matches ExecOutcome::Captured { stdout, .. } ==> r matches Ok(b) && b@ == stdout@,
        out is SpawnFailed <==> r == Err::<Vec<u8>, ServerError>(ServerError::Execution),
{
    match out {
        ExecOutcome::Captured { stdout, exit_code: _ } => Ok(stdout),
        ExecOutcome::SpawnFailed => Err(ServerError::Execution),
    }
}

} // verus!
