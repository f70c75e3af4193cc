//! The per-connection proxy handler's decision logic: pick a peer out of
//! the registry's healthy snapshot, and drive one connection's lifecycle as
//! a state machine over plain events.
//!
//! The surrounding runtime owns the sockets. It reports what happened
//! (connect succeeded or failed, bytes arrived, a side closed or errored)
//! and performs the action each step returns.

use vstd::prelude::*;
use crate::registry::Backend;
use crate::registry::Health;
use crate::registry::Registry;
use crate::registry::healthy_subset;
use crate::selection::Selection;
use crate::selection::SelectionPolicy;

verus! {

/// Why one connection failed. Both are terminal for that connection alone:
/// neither touches health state (unhealthiness is the health checker's
/// exclusive verdict) and neither is retried against another backend.
#[derive(Clone, Copy, PartialEq, Eq, Structural, Debug)]
pub enum ProxyError {
    /// The healthy set was empty at selection time.
    NoBackendAvailable,
    /// The chosen backend refused the connection or timed out.
    UpstreamConnectFailure,
}

/// Choose the upstream peer for one inbound connection: take the healthy
/// snapshot and let the policy pick. Exactly when no backend is healthy the
/// connection is rejected with `NoBackendAvailable`, before any upstream is
/// contacted; otherwise the chosen peer is one of the currently healthy
/// backends.
pub fn pick_upstream<P: SelectionPolicy>(registry: &Registry, policy: &mut P) -> (r: Result<
    Backend,
    ProxyError,
>)
    ensures
        (r matches Err(e) ==> e == ProxyError::NoBackendAvailable),
        (r matches Err(_)) <==> healthy_subset(registry@).len() == 0,
        (r matches Ok(b) ==> healthy_subset(registry@).contains(b)),
        (r matches Ok(b) ==> b.health == Health::Healthy),
    {
        let snapshot = registry.healthy_snapshot();
        match policy.pick(&snapshot) {
            Selection::Chosen(b) => {
                proof {
                    broadcast use vstd::seq_lib::group_filter_ensures;

                    assert(healthy_subset(registry@).contains(b));
                }
                Ok(b)
            },
            Selection::NoneAvailable => Err(ProxyError::NoBackendAvailable),
        }
    }

/// Where one proxied connection stands.
#[derive(Clone, Copy, PartialEq, Eq, Structural, Debug)]
pub enum ConnState {
    /// An upstream peer was chosen; its connect is in flight.
    Connecting,
    /// Both pipes are open; bytes are relayed in either direction.
    Relaying,
    /// The connection is finished; both sides are (to be) closed.
    Closed,
}

/// What the runtime observed on one connection.
#[derive(Clone, Copy, PartialEq, Eq, Structural, Debug)]
pub enum ConnEvent {
    /// The upstream connect completed within its timeout.
    ConnectOk,
    /// The upstream connect failed or timed out.
    ConnectFailed,
    /// The client sent this many bytes.
    ClientBytes(usize),
    /// The upstream sent this many bytes.
    UpstreamBytes(usize),
    /// The client closed its side.
    ClientEof,
    /// The upstream closed its side.
    UpstreamEof,
    /// The client side errored.
    ClientError,
    /// The upstream side errored.
    UpstreamError,
}

/// What the runtime must do next on this connection.
#[derive(Clone, Copy, PartialEq, Eq, Structural, Debug)]
pub enum ConnAction {
    /// Nothing to do; keep waiting for events.
    Proceed,
    /// Hand these client bytes to the upstream.
    ForwardToUpstream(usize),
    /// Hand these upstream bytes to the client.
    ForwardToClient(usize),
    /// Report this failure to the client and close.
    Fail(ProxyError),
    /// Close both sides now; none may be left half-open.
    Shutdown,
}

/// Whether an event ends the relay: either side closing or erroring.
pub open spec fn is_terminal_event(e: ConnEvent) -> bool {
    e == ConnEvent::ClientEof || e == ConnEvent::UpstreamEof || e == ConnEvent::ClientError
        || e == ConnEvent::UpstreamError
}

/// The connection state machine: from a state and an observed event to the
/// next state and the action to carry out. Bytes are forwarded only while
/// relaying; the first closure or error on either side closes both; a
/// failed connect fails the connection terminally with
/// `UpstreamConnectFailure`. Events that a finished or half-set-up
/// connection cannot produce are absorbed by closing it.
pub open spec fn conn_step(s: ConnState, e: ConnEvent) -> (ConnState, ConnAction) {
    match s {
        ConnState::Connecting => match e {
            ConnEvent::ConnectOk => (ConnState::Relaying, ConnAction::Proceed),
            ConnEvent::ConnectFailed => (
                ConnState::Closed,
                ConnAction::Fail(ProxyError::UpstreamConnectFailure),
            ),
            _ => (ConnState::Closed, ConnAction::Shutdown),
        },
        ConnState::Relaying => match e {
            ConnEvent::ClientBytes(n) => (ConnState::Relaying, ConnAction::ForwardToUpstream(n)),
            ConnEvent::UpstreamBytes(n) => (ConnState::Relaying, ConnAction::ForwardToClient(n)),
            _ => (ConnState::Closed, ConnAction::Shutdown),
        },
        ConnState::Closed => (ConnState::Closed, ConnAction::Shutdown),
    }
}

/// One proxied connection, from the runtime's point of view: only the
/// phase it is in. Sockets and buffers live with the runtime and are
/// scoped to this connection's lifetime.
pub struct Connection {
    pub state: ConnState,
}

impl Connection {
    /// A connection whose upstream connect has just been issued.
    pub fn open() -> (r: Connection)
        ensures
            r.state == ConnState::Connecting,
    {
        Connection { state: ConnState::Connecting }
    }

    /// Advance the connection by one observed event and say what to do.
    /// The step follows `conn_step` exactly; in particular, once either
    /// side closes or errors the connection is `Closed` and the action
    /// shuts both sides, so no half-open pipe survives any event path.
    pub fn on_event(&mut self, e: ConnEvent) -> (a: ConnAction)
        ensures
            (final(self).state, a) == conn_step(old(self).state, e),
            is_terminal_event(e) ==> final(self).state == ConnState::Closed && a
                == ConnAction::Shutdown,
    {
        let (s, a) = match self.state {
            ConnState::Connecting => match e {
                ConnEvent::ConnectOk => (ConnState::Relaying, ConnAction::Proceed),
                ConnEvent::ConnectFailed => (
                    ConnState::Closed,
                    ConnAction::Fail(ProxyError::UpstreamConnectFailure),
                ),
                _ => (ConnState::Closed, ConnAction::Shutdown),
            },
            ConnState::Relaying => match e {
                ConnEvent::ClientBytes(n) => (
                    ConnState::Relaying,
                    ConnAction::ForwardToUpstream(n),
                ),
                ConnEvent::UpstreamBytes(n) => (
                    ConnState::Relaying,
                    ConnAction::ForwardToClient(n),
                ),
                _ => (ConnState::Closed, ConnAction::Shutdown),
            },
            ConnState::Closed => (ConnState::Closed, ConnAction::Shutdown),
        };
        self.state = s;
        a
    }
}

} // verus!
