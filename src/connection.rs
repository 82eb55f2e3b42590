//! The course of one accepted connection: the TLS handshake, if any, then the
//! HTTP conversation, and how its end is logged.
//!
//! The caller performs each action and hands back what came of it.

use vstd::prelude::*;

verus! {

/// How TLS connections are accepted.
#[derive(Debug, Copy, Clone, PartialEq, Eq, Structural)]
pub enum TlsMode {
    /// The ACME acceptor, which answers TLS-ALPN-01 validation handshakes itself.
    Managed,
    /// A configured acceptor with a fixed certificate.
    Static,
}

/// How an ending is logged.
#[derive(Debug, Copy, Clone, PartialEq, Eq, Structural)]
pub enum LogLevel {
    Debug,
    Info,
    Error,
}

/// What failed a connection.
#[derive(Debug, Copy, Clone, PartialEq, Eq, Structural)]
pub enum Failure {
    /// The peer went away: an I/O error of kind `UnexpectedEof`.
    PeerDisconnected,
    /// Anything else.
    Other,
}

/// How a connection ended.
#[derive(Debug, Copy, Clone, PartialEq, Eq, Structural)]
pub enum Ending {
    /// The HTTP conversation ran to its end.
    Completed,
    /// It was a certificate validation probe, answered by the ACME acceptor.
    ValidationProbe,
    /// It failed.
    Failed(Failure),
}

/// Where a connection stands.
#[derive(Debug, Copy, Clone, PartialEq, Eq, Structural)]
pub enum ConnPhase {
    /// Just accepted.
    Opened,
    /// Waiting for the ACME acceptor.
    AwaitingAcme,
    /// In the TLS handshake.
    Handshaking,
    /// Serving HTTP, over TLS or not.
    Serving { tls: bool },
    /// Ended.
    Closed(Ending),
}

/// What happened.
#[derive(Debug, Copy, Clone, PartialEq, Eq, Structural)]
pub enum ConnEvent {
    /// The connection task started.
    Start,
    /// The ACME acceptor consumed a validation handshake.
    AcmeValidation,
    /// The ACME acceptor let an ordinary handshake through.
    AcmeHandshake,
    /// The TLS handshake completed.
    HandshakeDone,
    /// The HTTP conversation ended.
    ServeDone,
    /// The step under way failed.
    Failed(Failure),
}

/// What to do next.
#[derive(Debug, Copy, Clone, PartialEq, Eq, Structural)]
pub enum ConnAction {
    /// Serve HTTP on the plain stream.
    ServePlain,
    /// Hand the stream to the ACME acceptor.
    AcceptAcme,
    /// Run the handshake of the static acceptor.
    AcceptTls,
    /// Complete the handshake the ACME acceptor started, with the server's TLS parameters.
    CompleteHandshake,
    /// Serve HTTP on the TLS stream.
    ServeTls,
    /// Close the connection, logging the ending at this level.
    Close(Ending, LogLevel),
    /// Nothing to do.
    Nothing,
}

/// The level an ending is logged at: a peer that went away is routine and is
/// logged at debug level, a validation probe at info level, any other failure
/// as an error.
pub open spec fn level_of(e: Ending) -> LogLevel {
    match e {
        Ending::Completed => LogLevel::Debug,
        Ending::ValidationProbe => LogLevel::Info,
        Ending::Failed(Failure::PeerDisconnected) => LogLevel::Debug,
        Ending::Failed(Failure::Other) => LogLevel::Error,
    }
}

/// The level an ending is logged at.
pub fn log_level(e: Ending) -> (r: LogLevel)
    ensures
        r == level_of(e),
{
    match e {
        Ending::Completed => LogLevel::Debug,
        Ending::ValidationProbe => LogLevel::Info,
        Ending::Failed(Failure::PeerDisconnected) => LogLevel::Debug,
        Ending::Failed(Failure::Other) => LogLevel::Error,
    }
}

/// The next phase and the action for event `e` in phase `p` of a connection
/// accepted under TLS mode `tls`.
pub open spec fn conn_transition(tls: Option<TlsMode>, p: ConnPhase, e: ConnEvent) -> (ConnPhase, ConnAction) {
    let close = |end: Ending| (ConnPhase::Closed(end), ConnAction::Close(end, level_of(end)));
    match (p, e) {
        (ConnPhase::Closed(_), _) => (p, ConnAction::Nothing),
        (_, ConnEvent::Failed(f)) => close(Ending::Failed(f)),
        (ConnPhase::Opened, ConnEvent::Start) => match tls {
            None => (ConnPhase::Serving { tls: false }, ConnAction::ServePlain),
            Some(TlsMode::Managed) => (ConnPhase::AwaitingAcme, ConnAction::AcceptAcme),
            Some(TlsMode::Static) => (ConnPhase::Handshaking, ConnAction::AcceptTls),
        },
        (ConnPhase::AwaitingAcme, ConnEvent::AcmeValidation) => close(Ending::ValidationProbe),
        (ConnPhase::AwaitingAcme, ConnEvent::AcmeHandshake) => (ConnPhase::Handshaking, ConnAction::CompleteHandshake),
        (ConnPhase::Handshaking, ConnEvent::HandshakeDone) => (ConnPhase::Serving { tls: true }, ConnAction::ServeTls),
        (ConnPhase::Serving { tls: _ }, ConnEvent::ServeDone) => close(Ending::Completed),
        _ => (p, ConnAction::Nothing),
    }
}

/// One connection, from accept to close.
pub struct Connection {
    pub tls: Option<TlsMode>,
    pub phase: ConnPhase,
}

impl Connection {
    /// A connection just accepted under TLS mode `tls` (none: plain HTTP).
    pub fn new(tls: Option<TlsMode>) -> (r: Connection)
        ensures
            r.tls == tls,
            r.phase == ConnPhase::Opened,
    {
        Connection { tls, phase: ConnPhase::Opened }
    }

    /// Takes in one event and says what to do.
    pub fn step(&mut self, e: ConnEvent) -> (a: ConnAction)
        ensures
            final(self).tls == old(self).tls,
            (final(self).phase, a) == conn_transition(old(self).tls, old(self).phase, e),
    {
        let (phase, action) = match (self.phase, e) {
            (ConnPhase::Closed(_), _) => (self.phase, ConnAction::Nothing),
            (_, ConnEvent::Failed(f)) => {
                let end = Ending::Failed(f);
                (ConnPhase::Closed(end), ConnAction::Close(end, log_level(end)))
            },
            (ConnPhase::Opened, ConnEvent::Start) => match self.tls {
                None => (ConnPhase::Serving { tls: false }, ConnAction::ServePlain),
                Some(TlsMode::Managed) => (ConnPhase::AwaitingAcme, ConnAction::AcceptAcme),
                Some(TlsMode::Static) => (ConnPhase::Handshaking, ConnAction::AcceptTls),
            },
            (ConnPhase::AwaitingAcme, ConnEvent::AcmeValidation) => {
                let end = Ending::ValidationProbe;
                (ConnPhase::Closed(end), ConnAction::Close(end, log_level(end)))
            },
            (ConnPhase::AwaitingAcme, ConnEvent::AcmeHandshake) => (ConnPhase::Handshaking, ConnAction::CompleteHandshake),
            (ConnPhase::Handshaking, ConnEvent::HandshakeDone) => (ConnPhase::Serving { tls: true }, ConnAction::ServeTls),
            (ConnPhase::Serving { tls: _ }, ConnEvent::ServeDone) => {
                let end = Ending::Completed;
                (ConnPhase::Closed(end), ConnAction::Close(end, log_level(end)))
            },
            _ => (self.phase, ConnAction::Nothing),
        };
        self.phase = phase;
        action
    }
}

/// HTTP is served over TLS exactly when a TLS mode was configured, and plain
/// exactly when none was.
pub proof fn lemma_serving_matches_mode(tls: Option<TlsMode>, p: ConnPhase, e: ConnEvent)
    ensures
        conn_transition(tls, p, e).1 == ConnAction::ServePlain ==> tls is None,
        conn_transition(tls, p, e).1 == ConnAction::ServeTls ==> p == ConnPhase::Handshaking,
        p == ConnPhase::Opened && tls is Some ==> conn_transition(tls, p, e).1 != ConnAction::ServePlain,
{
}

} // verus!
