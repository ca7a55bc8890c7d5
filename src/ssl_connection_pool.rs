//! The life of one pooled connection: connect, handshake, authenticate,
//! serve, validate, and break or close.
use vstd::prelude::*;
use crate::authenticators::Authenticator;
use crate::error::{CdrsError, ProtocolErrorKind};
use crate::frame::{Frame, Opcode, VERSION_REQUEST, MAX_BODY_LEN, startup_body, is_request};
use crate::types::long_bytes;

verus! {

/// Where a pooled connection stands.
#[derive(Clone, Copy, Debug, PartialEq, Eq, Structural)]
pub enum ConnState {
    /// The transport is being opened.
    Connecting,
    /// STARTUP was sent; READY or AUTHENTICATE is awaited.
    Handshaking,
    /// An AUTH_RESPONSE was sent; AUTH_CHALLENGE or AUTH_SUCCESS is awaited.
    Authenticating,
    /// Usable: may be checked out.
    Ready,
    /// An OPTIONS probe was sent; any well-formed answer proves liveness.
    Validating,
    /// Failed after setup; must be discarded.
    Broken,
    /// Failed during setup; never became usable.
    Closed,
}

/// What happened to the connection.
#[derive(Clone, Debug)]
pub enum ConnEvent {
    /// The transport opened.
    Opened,
    /// The pool asks for a liveness check.
    Validate,
    /// A well-formed frame arrived.
    Received(Frame),
    /// An operation failed: transport, framing, or an ERROR frame.
    Failed(CdrsError),
}

/// What the caller must do next.
#[derive(Clone, Debug)]
pub enum ConnAction {
    /// Write this frame, then read one frame and report it.
    Send(Frame),
    /// The connection is ready to use.
    Done,
    /// Report this error to whoever drove the connection.
    Fail(CdrsError),
    /// Nothing to do.
    Wait,
}

/// Next state and the action that goes with it.
#[derive(Clone, Debug)]
pub struct Transition {
    pub state: ConnState,
    pub action: ConnAction,
}

/// Whether the error leaves the connection usable: an ERROR frame is a
/// well-formed answer, so the transport and framing are intact.
pub open spec fn is_server_error(e: CdrsError) -> bool {
    e is Server
}

/// The state after `ev` in `st`.
pub open spec fn next_state(st: ConnState, ev: ConnEvent) -> ConnState {
    match (st, ev) {
        (ConnState::Connecting, ConnEvent::Opened) => ConnState::Handshaking,
        (ConnState::Handshaking, ConnEvent::Received(f)) => match f.opcode {
            Opcode::Ready => ConnState::Ready,
            Opcode::Authenticate => ConnState::Authenticating,
            _ => ConnState::Closed,
        },
        (ConnState::Authenticating, ConnEvent::Received(f)) => match f.opcode {
            Opcode::AuthChallenge => ConnState::Authenticating,
            Opcode::AuthSuccess => ConnState::Ready,
            _ => ConnState::Closed,
        },
        (ConnState::Ready, ConnEvent::Validate) => ConnState::Validating,
        (ConnState::Ready, ConnEvent::Received(_)) => ConnState::Ready,
        (ConnState::Ready, ConnEvent::Failed(e)) =>
            if is_server_error(e) { ConnState::Ready } else { ConnState::Broken },
        (ConnState::Validating, ConnEvent::Received(_)) => ConnState::Ready,
        (ConnState::Validating, ConnEvent::Failed(e)) =>
            if is_server_error(e) { ConnState::Ready } else { ConnState::Broken },
        (ConnState::Ready, _) => ConnState::Broken,
        (ConnState::Validating, _) => ConnState::Broken,
        (ConnState::Broken, _) => ConnState::Broken,
        (ConnState::Closed, _) => ConnState::Closed,
        (_, _) => ConnState::Closed,
    }
}

/// The state after each event of `evs` in turn, starting from `st`.
pub open spec fn run(st: ConnState, evs: Seq<ConnEvent>) -> ConnState
    decreases evs.len(),
{
    if evs.len() == 0 {
        st
    } else {
        next_state(run(st, evs.drop_last()), evs.last())
    }
}

/// Whether the pool must discard a connection in this state.
pub open spec fn spec_has_broken(st: ConnState) -> bool {
    st is Broken || st is Closed
}

/// The error reported when a setup step fails with `e`: an ERROR frame
/// during authentication is a refusal of the credentials.
pub open spec fn setup_error(st: ConnState, e: CdrsError) -> CdrsError {
    match e {
        CdrsError::Server { code, message } =>
            if st is Authenticating { CdrsError::Auth { code, message } } else { e },
        _ => e,
    }
}

/// The body of an AUTH_RESPONSE carrying `token`.
pub open spec fn auth_response_body(token: Seq<u8>) -> Seq<u8> {
    long_bytes(token)
}

/// The action that goes with `ev` in `st`, up to the tokens an
/// authenticator supplies.
pub open spec fn action_ok(st: ConnState, ev: ConnEvent, stream: i16, a: ConnAction) -> bool {
    let next = next_state(st, ev);
    match (st, ev) {
        (ConnState::Connecting, ConnEvent::Opened) =>
            a matches ConnAction::Send(f) && is_request(f, stream, Opcode::Startup)
                && f.body@ == startup_body(None),
        (ConnState::Ready, ConnEvent::Validate) =>
            a matches ConnAction::Send(f) && is_request(f, stream, Opcode::Options) && f.body@.len() == 0,
        (ConnState::Handshaking, ConnEvent::Received(f)) if f.opcode == Opcode::Authenticate =>
            (a matches ConnAction::Send(g) && is_request(g, stream, Opcode::AuthResponse))
            || a == ConnAction::Fail(CdrsError::Protocol(ProtocolErrorKind::BadLength)),
        (ConnState::Authenticating, ConnEvent::Received(f)) if f.opcode == Opcode::AuthChallenge =>
            (a matches ConnAction::Send(g) && is_request(g, stream, Opcode::AuthResponse))
            || a == ConnAction::Fail(CdrsError::Protocol(ProtocolErrorKind::BadLength)),
        (ConnState::Connecting, ConnEvent::Failed(e)) => a == ConnAction::Fail(setup_error(st, e)),
        (ConnState::Handshaking, ConnEvent::Failed(e)) => a == ConnAction::Fail(setup_error(st, e)),
        (ConnState::Authenticating, ConnEvent::Failed(e)) => a == ConnAction::Fail(setup_error(st, e)),
        (ConnState::Ready, ConnEvent::Failed(e)) => a == ConnAction::Fail(e),
        (ConnState::Validating, ConnEvent::Failed(e)) =>
            if is_server_error(e) { a == ConnAction::Done } else { a == ConnAction::Fail(e) },
        (ConnState::Ready, ConnEvent::Received(_)) => a == ConnAction::Wait,
        (ConnState::Broken, _) => a == ConnAction::Wait,
        (ConnState::Closed, _) => a == ConnAction::Wait,
        (_, _) =>
            if next is Ready {
                a == ConnAction::Done
            } else {
                a == ConnAction::Fail(CdrsError::Protocol(ProtocolErrorKind::UnexpectedOpcode))
            },
    }
}

/// Creates and checks the connections of a pool for one node.
#[derive(Debug)]
pub struct SslConnectionsManager<A> {
    addr: String,
    auth: A,
}

impl<A> SslConnectionsManager<A> {
    /// The node address, as `host:port`.
    pub closed spec fn spec_addr(&self) -> Seq<char> {
        self.addr@
    }

    /// The authenticator offered during the handshake.
    pub closed spec fn spec_auth(&self) -> A {
        self.auth
    }

    pub fn new(addr: &str, auth: A) -> (r: SslConnectionsManager<A>)
        ensures
            r.spec_addr() == addr@,
            r.spec_auth() == auth,
    {
        SslConnectionsManager { addr: addr.to_owned(), auth }
    }

    pub fn addr(&self) -> (r: &str)
        ensures
            r@ == self.spec_addr(),
    {
        self.addr.as_str()
    }

    pub fn auth(&self) -> (r: &A)
        ensures
            *r == self.spec_auth(),
    {
        &self.auth
    }

    /// Whether the pool must discard a connection in state `st`.
    pub fn has_broken(&self, st: &ConnState) -> (r: bool)
        ensures
            r == spec_has_broken(*st),
    {
        match st {
            ConnState::Broken | ConnState::Closed => true,
            _ => false,
        }
    }
}

/// An AUTH_RESPONSE with `token`, or a length error where it cannot be framed.
fn auth_response_action(stream: i16, token: &Vec<u8>) -> (r: ConnAction)
    ensures
        (r matches ConnAction::Send(g) && is_request(g, stream, Opcode::AuthResponse)
            && g.body@ == auth_response_body(token@))
        || r == ConnAction::Fail(CdrsError::Protocol(ProtocolErrorKind::BadLength)),
        token@.len() <= MAX_BODY_LEN - 4 ==> r is Send,
{
    if token.len() as u64 <= (MAX_BODY_LEN - 4) as u64 {
        ConnAction::Send(Frame::new_req_auth_response(stream, token))
    } else {
        ConnAction::Fail(CdrsError::Protocol(ProtocolErrorKind::BadLength))
    }
}

/// The error that a failed setup step reports.
fn setup_failure(st: ConnState, e: CdrsError) -> (r: CdrsError)
    ensures
        r == setup_error(st, e),
{
    match e {
        CdrsError::Server { code, message } => match st {
            ConnState::Authenticating => CdrsError::Auth { code, message },
            _ => CdrsError::Server { code, message },
        },
        _ => e,
    }
}

impl<A: Authenticator> SslConnectionsManager<A> {
    /// Decides the next state of a connection in `st` after `ev`, and what to
    /// do about it; frames it asks to send carry `stream`.
    pub fn step(&self, st: ConnState, ev: ConnEvent, stream: i16) -> (r: Transition)
        ensures
            r.state == next_state(st, ev),
            action_ok(st, ev, stream, r.action),
    {
        let next = match (st, &ev) {
            (ConnState::Connecting, ConnEvent::Opened) => ConnState::Handshaking,
            (ConnState::Handshaking, ConnEvent::Received(f)) => match f.opcode {
                Opcode::Ready => ConnState::Ready,
                Opcode::Authenticate => ConnState::Authenticating,
                _ => ConnState::Closed,
            },
            (ConnState::Authenticating, ConnEvent::Received(f)) => match f.opcode {
                Opcode::AuthChallenge => ConnState::Authenticating,
                Opcode::AuthSuccess => ConnState::Ready,
                _ => ConnState::Closed,
            },
            (ConnState::Ready, ConnEvent::Validate) => ConnState::Validating,
            (ConnState::Ready, ConnEvent::Received(_)) => ConnState::Ready,
            (ConnState::Ready, ConnEvent::Failed(e)) =>
                if let CdrsError::Server { .. } = e { ConnState::Ready } else { ConnState::Broken },
            (ConnState::Validating, ConnEvent::Received(_)) => ConnState::Ready,
            (ConnState::Validating, ConnEvent::Failed(e)) =>
                if let CdrsError::Server { .. } = e { ConnState::Ready } else { ConnState::Broken },
            (ConnState::Ready, _) => ConnState::Broken,
            (ConnState::Validating, _) => ConnState::Broken,
            (ConnState::Broken, _) => ConnState::Broken,
            (ConnState::Closed, _) => ConnState::Closed,
            (_, _) => ConnState::Closed,
        };
        let action = match (st, ev) {
            (ConnState::Connecting, ConnEvent::Opened) =>
                ConnAction::Send(Frame::new_req_startup(stream, None)),
            (ConnState::Ready, ConnEvent::Validate) =>
                ConnAction::Send(Frame::new_req_options(stream)),
            (ConnState::Handshaking, ConnEvent::Received(f)) if f.opcode == Opcode::Authenticate => {
                let token = self.auth.auth_token();
                auth_response_action(stream, &token)
            },
            (ConnState::Authenticating, ConnEvent::Received(f)) if f.opcode == Opcode::AuthChallenge => {
                let token = self.auth.challenge_response(&f.body);
                auth_response_action(stream, &token)
            },
            (ConnState::Connecting, ConnEvent::Failed(e)) => ConnAction::Fail(setup_failure(st, e)),
            (ConnState::Handshaking, ConnEvent::Failed(e)) => ConnAction::Fail(setup_failure(st, e)),
            (ConnState::Authenticating, ConnEvent::Failed(e)) => ConnAction::Fail(setup_failure(st, e)),
            (ConnState::Ready, ConnEvent::Failed(e)) => ConnAction::Fail(e),
            (ConnState::Validating, ConnEvent::Failed(e)) =>
                if let CdrsError::Server { .. } = e { ConnAction::Done } else { ConnAction::Fail(e) },
            (ConnState::Ready, ConnEvent::Received(_)) => ConnAction::Wait,
            (ConnState::Broken, _) => ConnAction::Wait,
            (ConnState::Closed, _) => ConnAction::Wait,
            (_, _) => if let ConnState::Ready = next {
                ConnAction::Done
            } else {
                ConnAction::Fail(CdrsError::Protocol(ProtocolErrorKind::UnexpectedOpcode))
            },
        };
        Transition { state: next, action }
    }
}

/// Sizing and lifetime policy of a pool for one node, with durations in
/// milliseconds. Valid values only: see `NodeSslConfig::new`.
#[derive(Clone, Debug)]
pub struct NodeSslConfig<A> {
    pub addr: String,
    pub authenticator: A,
    pub max_size: u32,
    pub min_idle: Option<u32>,
    pub max_lifetime_ms: Option<u64>,
    pub idle_timeout_ms: Option<u64>,
    pub connection_timeout_ms: u64,
}

/// A policy the pool can enforce: at least one connection, no more idle
/// connections than the maximum, and no zero duration.
pub open spec fn config_ok(
    max_size: u32,
    min_idle: Option<u32>,
    max_lifetime_ms: Option<u64>,
    idle_timeout_ms: Option<u64>,
    connection_timeout_ms: u64,
) -> bool {
    &&& max_size > 0
    &&& min_idle matches Some(m) ==> m <= max_size
    &&& max_lifetime_ms != Some(0u64)
    &&& idle_timeout_ms != Some(0u64)
    &&& connection_timeout_ms > 0
}

impl<A> NodeSslConfig<A> {
    pub open spec fn wf(&self) -> bool {
        config_ok(self.max_size, self.min_idle, self.max_lifetime_ms, self.idle_timeout_ms,
            self.connection_timeout_ms)
    }

    /// Whether the pool can enforce this policy.
    pub fn is_valid(&self) -> (r: bool)
        ensures
            r == self.wf(),
    {
        let idle_ok = match self.min_idle {
            Some(m) => m <= self.max_size,
            None => true,
        };
        let lifetime_ok = match self.max_lifetime_ms {
            Some(ms) => ms != 0,
            None => true,
        };
        let timeout_ok = match self.idle_timeout_ms {
            Some(ms) => ms != 0,
            None => true,
        };
        self.max_size > 0 && idle_ok && lifetime_ok && timeout_ok && self.connection_timeout_ms > 0
    }

    /// A pool policy, or `CdrsError::Pool` when the pool could not enforce it.
    pub fn new(
        addr: &str,
        authenticator: A,
        max_size: u32,
        min_idle: Option<u32>,
        max_lifetime_ms: Option<u64>,
        idle_timeout_ms: Option<u64>,
        connection_timeout_ms: u64,
    ) -> (r: Result<NodeSslConfig<A>, CdrsError>)
        ensures
            r is Ok <==> config_ok(max_size, min_idle, max_lifetime_ms, idle_timeout_ms,
                connection_timeout_ms),
            r matches Err(e) ==> e is Pool,
            r matches Ok(c) ==> {
                &&& c.addr@ == addr@
                &&& c.authenticator == authenticator
                &&& c.max_size == max_size
                &&& c.min_idle == min_idle
                &&& c.max_lifetime_ms == max_lifetime_ms
                &&& c.idle_timeout_ms == idle_timeout_ms
                &&& c.connection_timeout_ms == connection_timeout_ms
            },
    {
        if max_size == 0 || connection_timeout_ms == 0 {
            return Err(CdrsError::Pool);
        }
        if let Some(m) = min_idle {
            if m > max_size {
                return Err(CdrsError::Pool);
            }
        }
        if let Some(0u64) = max_lifetime_ms {
            return Err(CdrsError::Pool);
        }
        if let Some(0u64) = idle_timeout_ms {
            return Err(CdrsError::Pool);
        }
        Ok(NodeSslConfig {
            addr: addr.to_owned(),
            authenticator,
            max_size,
            min_idle,
            max_lifetime_ms,
            idle_timeout_ms,
            connection_timeout_ms,
        })
    }
}

/// A connection whose liveness probe fails at the transport or the framing
/// becomes Broken, and the pool discards it: whatever happens afterwards it
/// stays Broken, so it never becomes Ready again.
pub proof fn lemma_failed_validation_breaks(e: CdrsError, later: Seq<ConnEvent>)
    requires
        !is_server_error(e),
    ensures
        next_state(ConnState::Validating, ConnEvent::Failed(e)) == ConnState::Broken,
        run(ConnState::Validating, seq![ConnEvent::Failed(e)] + later) == ConnState::Broken,
        spec_has_broken(run(ConnState::Validating, seq![ConnEvent::Failed(e)] + later)),
    decreases later.len(),
{
    let evs = seq![ConnEvent::Failed(e)] + later;
    if later.len() == 0 {
        assert(evs.drop_last() =~= Seq::<ConnEvent>::empty());
        assert(evs.last() == ConnEvent::Failed(e));
        assert(run(ConnState::Validating, evs.drop_last()) == ConnState::Validating);
    } else {
        lemma_failed_validation_breaks(e, later.drop_last());
        assert(evs.drop_last() =~= seq![ConnEvent::Failed(e)] + later.drop_last());
        assert(run(ConnState::Validating, evs.drop_last()) == ConnState::Broken);
    }
}

/// Broken and Closed are final: no sequence of events leaves them.
pub proof fn lemma_discarded_is_final(st: ConnState, evs: Seq<ConnEvent>)
    requires
        spec_has_broken(st),
    ensures
        run(st, evs) == st,
    decreases evs.len(),
{
    if evs.len() > 0 {
        lemma_discarded_is_final(st, evs.drop_last());
    }
}

/// A request that fails mid-way on a checked-out connection, at the transport
/// or the framing, leaves it Broken, so that on its return the pool discards
/// it and frees its slot for a replacement; an ERROR answer keeps it Ready.
pub proof fn lemma_failed_use_is_discarded(e: CdrsError)
    ensures
        !is_server_error(e) ==> next_state(ConnState::Ready, ConnEvent::Failed(e)) == ConnState::Broken
            && spec_has_broken(next_state(ConnState::Ready, ConnEvent::Failed(e))),
        is_server_error(e) ==> next_state(ConnState::Ready, ConnEvent::Failed(e)) == ConnState::Ready
            && !spec_has_broken(next_state(ConnState::Ready, ConnEvent::Failed(e))),
{
}

} // verus!
