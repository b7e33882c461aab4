//! The acceptor of the peer server: what it does with each connection,
//! and how it is shut down.
//!
//! The server is shut down in band. Its owner connects to the server's
//! own address and sends `TurnOff`. The acceptor tells such a connection
//! from that of a peer by the address it comes from, reads one request
//! from it itself, and stops if that request is `TurnOff`. A connection of
//! a peer is handed to a task and never stops the server, whatever it
//! sends.

use crate::peer::{DistRequest, DistRequestView};
use vstd::prelude::*;

verus! {

/// A numeric network address, as the bits of its number.
#[derive(Debug, Clone, Copy, PartialEq, Eq, Structural)]
pub enum IpAddress {
    V4(u32),
    V6(u128),
}

/// Where the acceptor stands.
#[derive(Debug, Clone, Copy, PartialEq, Eq, Structural)]
pub enum AcceptorState {
    /// Waiting for the next connection.
    Listening,
    /// A connection from the server's own address is open and its one
    /// request has not been read yet.
    AwaitingLocalRequest,
    /// Shut down in order.
    Stopped,
    /// Given up after a failure.
    Failed,
}

/// What happened on the listening socket or on a local connection.
#[derive(Debug)]
pub enum AcceptorEvent {
    /// A connection was accepted from this address.
    Accepted(IpAddress),
    /// Accepting a connection failed.
    AcceptFailed,
    /// The request of the local connection was read.
    LocalRequest(DistRequest),
    /// The request of the local connection could not be read or decoded.
    LocalReadFailed,
}

/// What an `AcceptorEvent` holds.
pub enum AcceptorEventView {
    Accepted(IpAddress),
    AcceptFailed,
    LocalRequest(DistRequestView),
    LocalReadFailed,
}

impl View for AcceptorEvent {
    type V = AcceptorEventView;

    open spec fn view(&self) -> AcceptorEventView {
        match *self {
            AcceptorEvent::Accepted(peer) => AcceptorEventView::Accepted(peer),
            AcceptorEvent::AcceptFailed => AcceptorEventView::AcceptFailed,
            AcceptorEvent::LocalRequest(request) => AcceptorEventView::LocalRequest(request@),
            AcceptorEvent::LocalReadFailed => AcceptorEventView::LocalReadFailed,
        }
    }
}

/// What the acceptor does next.
#[derive(Debug, Clone, Copy, PartialEq, Eq, Structural)]
pub enum AcceptorAction {
    /// Hand the connection to a task of its own and accept the next one.
    SpawnTask,
    /// Read one request from the connection, on the acceptor's thread.
    ReadLocalRequest,
    /// Acknowledge the shutdown, close the connection and return.
    ReplyTurnOffAndStop,
    /// Give up: the failure is fatal to the server.
    Abort,
}

/// The state and the action that follow `event` in `state`, for a server
/// bound to `bind_ip`.
pub open spec fn spec_step(bind_ip: IpAddress, state: AcceptorState, event: AcceptorEventView) -> (
    AcceptorState,
    AcceptorAction,
) {
    match (state, event) {
        (AcceptorState::Listening, AcceptorEventView::Accepted(peer)) => if peer == bind_ip {
            (AcceptorState::AwaitingLocalRequest, AcceptorAction::ReadLocalRequest)
        } else {
            (AcceptorState::Listening, AcceptorAction::SpawnTask)
        },
        (
            AcceptorState::AwaitingLocalRequest,
            AcceptorEventView::LocalRequest(DistRequestView::TurnOff),
        ) => (AcceptorState::Stopped, AcceptorAction::ReplyTurnOffAndStop),
        (AcceptorState::Stopped, _) => (AcceptorState::Stopped, AcceptorAction::Abort),
        _ => (AcceptorState::Failed, AcceptorAction::Abort),
    }
}

/// The acceptor of a server: the address it is bound to and where it
/// stands.
#[derive(Debug)]
pub struct Acceptor {
    bind_ip: IpAddress,
    state: AcceptorState,
}

impl Acceptor {
    /// The address that the server is bound to.
    pub closed spec fn bind_ip(&self) -> IpAddress {
        self.bind_ip
    }

    /// Where the acceptor stands.
    pub closed spec fn current(&self) -> AcceptorState {
        self.state
    }

    /// An acceptor for a server bound to `bind_ip`, waiting for its first
    /// connection.
    pub fn new(bind_ip: IpAddress) -> (acceptor: Acceptor)
        ensures
            acceptor.bind_ip() == bind_ip,
            acceptor.current() == AcceptorState::Listening,
    {
        Acceptor { bind_ip, state: AcceptorState::Listening }
    }

    /// Where the acceptor stands.
    pub fn state(&self) -> (state: AcceptorState)
        ensures
            state == self.current(),
    {
        self.state
    }

    /// True if `peer` is the address that the server is bound to, so that
    /// a connection from it is the server's own.
    pub fn is_loopback(&self, peer: IpAddress) -> (local: bool)
        ensures
            local == (peer == self.bind_ip()),
    {
        match (peer, self.bind_ip) {
            (IpAddress::V4(a), IpAddress::V4(b)) => a == b,
            (IpAddress::V6(a), IpAddress::V6(b)) => a == b,
            _ => false,
        }
    }

    /// Takes note of `event` and says what to do next.
    pub fn step(&mut self, event: &AcceptorEvent) -> (action: AcceptorAction)
        ensures
            final(self).bind_ip() == old(self).bind_ip(),
            (final(self).current(), action) == spec_step(
                old(self).bind_ip(),
                old(self).current(),
                event@,
            ),
    {
        let (next, action) = match self.state {
            AcceptorState::Listening => match event {
                AcceptorEvent::Accepted(peer) => if self.is_loopback(*peer) {
                    (AcceptorState::AwaitingLocalRequest, AcceptorAction::ReadLocalRequest)
                } else {
                    (AcceptorState::Listening, AcceptorAction::SpawnTask)
                },
                _ => (AcceptorState::Failed, AcceptorAction::Abort),
            },
            AcceptorState::AwaitingLocalRequest => match event {
                AcceptorEvent::LocalRequest(DistRequest::TurnOff) => (
                    AcceptorState::Stopped,
                    AcceptorAction::ReplyTurnOffAndStop,
                ),
                _ => (AcceptorState::Failed, AcceptorAction::Abort),
            },
            AcceptorState::Stopped => (AcceptorState::Stopped, AcceptorAction::Abort),
            AcceptorState::Failed => (AcceptorState::Failed, AcceptorAction::Abort),
        };
        self.state = next;
        action
    }
}

/// A connection from another address than the server's own is handed to a
/// task and leaves the acceptor listening: it never shuts the server down.
pub proof fn lemma_remote_never_stops(bind_ip: IpAddress, peer: IpAddress)
    requires
        peer != bind_ip,
    ensures
        spec_step(bind_ip, AcceptorState::Listening, AcceptorEventView::Accepted(peer)) == (
            AcceptorState::Listening,
            AcceptorAction::SpawnTask,
        ),
{
}

/// The acceptor stops in order only when the one request of a connection
/// from its own address is `TurnOff`; it then acknowledges. Every other
/// request on that connection, and every failure, is fatal.
pub proof fn lemma_stops_only_on_local_turnoff(
    bind_ip: IpAddress,
    state: AcceptorState,
    event: AcceptorEventView,
)
    ensures
        ({
            let (next, action) = spec_step(bind_ip, state, event);
            &&& action == AcceptorAction::ReplyTurnOffAndStop <==> (state
                == AcceptorState::AwaitingLocalRequest && event
                == AcceptorEventView::LocalRequest(DistRequestView::TurnOff))
            &&& next == AcceptorState::Stopped <==> (state == AcceptorState::Stopped || action
                == AcceptorAction::ReplyTurnOffAndStop)
            &&& state == AcceptorState::AwaitingLocalRequest && action
                != AcceptorAction::ReplyTurnOffAndStop ==> next == AcceptorState::Failed && action
                == AcceptorAction::Abort
            &&& action == AcceptorAction::ReadLocalRequest <==> (state == AcceptorState::Listening
                && event == AcceptorEventView::Accepted(bind_ip))
        }),
{
}

} // verus!
