//! The bootstrap connectivity manager: it makes sure that the local storage
//! node is connected to the network, and publishes the node's identity.
//!
//! Like the data worker it only says what is to be done next.

use vstd::prelude::*;
use crate::commands::{
    Action, ActionView, Call, CallView, IpfsRequest, IpfsRequestView, IpfsResponse, IpfsResponseView, WorkerEvent,
    WorkerEventView,
};
use crate::identity::{known, Identities, NodeView};
use crate::node::{moment_after, request_deadline, REQUEST_TIMEOUT_MILLIS};
use crate::types::{byte_strings, clone_bytes, Multiaddr, PublicKey};

verus! {

/// How far the housekeeping of this cycle has come.
#[derive(Debug, PartialEq, Eq)]
pub enum HousekeepingState {
    /// Nothing was done yet.
    Ready,
    /// Asking the local node who it is.
    Identifying,
    /// Connecting to the first bootstrap node at its last-listed address;
    /// `fallback` is the address to try if that fails.
    Connecting { public_key: PublicKey, addresses: Vec<Multiaddr>, fallback: Option<Multiaddr> },
    /// Connecting to the first bootstrap node at the fallback address.
    Retrying { public_key: PublicKey, addresses: Vec<Multiaddr> },
    /// The housekeeping of this cycle is over.
    Done,
}

/// What the progress of the housekeeping holds.
pub enum HousekeepingStateView {
    Ready,
    Identifying,
    Connecting { public_key: Seq<u8>, addresses: Seq<Seq<u8>>, fallback: Option<Seq<u8>> },
    Retrying { public_key: Seq<u8>, addresses: Seq<Seq<u8>> },
    Done,
}

/// What an address that may be missing holds.
pub open spec fn optional_bytes(bytes: Option<Vec<u8>>) -> Option<Seq<u8>> {
    match bytes {
        Some(b) => Some(b@),
        None => None,
    }
}

impl View for HousekeepingState {
    type V = HousekeepingStateView;

    open spec fn view(&self) -> HousekeepingStateView {
        match *self {
            HousekeepingState::Ready => HousekeepingStateView::Ready,
            HousekeepingState::Identifying => HousekeepingStateView::Identifying,
            HousekeepingState::Connecting { public_key, addresses, fallback } => HousekeepingStateView::Connecting {
                public_key: public_key@,
                addresses: byte_strings(addresses@),
                fallback: optional_bytes(fallback),
            },
            HousekeepingState::Retrying { public_key, addresses } => HousekeepingStateView::Retrying {
                public_key: public_key@,
                addresses: byte_strings(addresses@),
            },
            HousekeepingState::Done => HousekeepingStateView::Done,
        }
    }
}

/// A step of the housekeeping: where it stands afterwards and what it asks for.
pub struct HousekeepingStep {
    pub state: HousekeepingStateView,
    pub action: ActionView,
}

/// The step that ends the housekeeping with `action`.
pub open spec fn ended(action: ActionView) -> HousekeepingStep {
    HousekeepingStep { state: HousekeepingStateView::Done, action }
}

/// The last step: a node that can sign publishes its identity, another one has finished.
pub open spec fn publishing(public_key: Seq<u8>, addresses: Seq<Seq<u8>>, can_sign: bool) -> HousekeepingStep {
    if can_sign {
        ended(ActionView::SubmitSigned(CallView::SubmitIpfsIdentity { public_key, multiaddresses: addresses }))
    } else {
        ended(ActionView::Finished)
    }
}

/// The step that follows once the local node has said who it is.
///
/// A node that is a bootstrap node itself has nothing to do. Any other node
/// connects to the first bootstrap node at its last-listed address, keeping
/// the address listed before that one as the fallback, and then publishes its
/// identity; where no bootstrap node or no address is known it publishes at once.
pub open spec fn identified(
    public_key: Seq<u8>,
    addresses: Seq<Seq<u8>>,
    nodes: Seq<NodeView>,
    can_sign: bool,
    deadline: u64,
) -> HousekeepingStep {
    if known(nodes, public_key) {
        ended(ActionView::Finished)
    } else if nodes.len() > 0 && nodes[0].addresses.len() > 0 {
        let listed = nodes[0].addresses;
        HousekeepingStep {
            state: HousekeepingStateView::Connecting {
                public_key,
                addresses,
                fallback: if listed.len() > 1 {
                    Some(listed[listed.len() - 2])
                } else {
                    None
                },
            },
            action: ActionView::Request { request: IpfsRequestView::Connect(listed.last()), deadline },
        }
    } else {
        publishing(public_key, addresses, can_sign)
    }
}

/// The step of the housekeeping that follows a report.
///
/// At most two connections are tried: the second one only where the first
/// did not succeed and a fallback address is listed. The identity is
/// published whatever came of them.
pub open spec fn housekeeping_step(
    state: HousekeepingStateView,
    event: WorkerEventView,
    nodes: Seq<NodeView>,
    can_sign: bool,
    deadline: u64,
) -> HousekeepingStep {
    match (state, event) {
        (HousekeepingStateView::Ready, WorkerEventView::Wake) => HousekeepingStep {
            state: HousekeepingStateView::Identifying,
            action: ActionView::Request { request: IpfsRequestView::Identity, deadline },
        },
        (HousekeepingStateView::Done, WorkerEventView::Wake) => ended(ActionView::Finished),
        (HousekeepingStateView::Identifying, WorkerEventView::Node(Err(error))) => ended(ActionView::Abort(error)),
        (
            HousekeepingStateView::Identifying,
            WorkerEventView::Node(Ok(IpfsResponseView::Identity(public_key, addresses))),
        ) => identified(public_key, addresses, nodes, can_sign, deadline),
        (
            HousekeepingStateView::Connecting { public_key, addresses, fallback },
            WorkerEventView::Node(outcome),
        ) => {
            if outcome == Ok::<IpfsResponseView, crate::types::Error>(IpfsResponseView::Success) || fallback is None {
                publishing(public_key, addresses, can_sign)
            } else {
                HousekeepingStep {
                    state: HousekeepingStateView::Retrying { public_key, addresses },
                    action: ActionView::Request { request: IpfsRequestView::Connect(fallback->0), deadline },
                }
            }
        },
        (HousekeepingStateView::Retrying { public_key, addresses }, WorkerEventView::Node(_)) => publishing(
            public_key,
            addresses,
            can_sign,
        ),
        _ => ended(ActionView::Fault),
    }
}

/// The largest number of requests that the housekeeping can still make.
pub open spec fn requests_left(state: HousekeepingStateView) -> nat {
    match state {
        HousekeepingStateView::Ready => 3,
        HousekeepingStateView::Identifying => 2,
        HousekeepingStateView::Connecting { fallback, .. } => if fallback is Some {
            1
        } else {
            0
        },
        HousekeepingStateView::Retrying { .. } => 0,
        HousekeepingStateView::Done => 0,
    }
}

/// The housekeeping comes to an end, and never tries more than two
/// connections: every request uses up one of the three that a cycle has, the
/// first of them for the node's identity, and the identity is only
/// published when the housekeeping is over.
pub proof fn law_housekeeping_ends(
    state: HousekeepingStateView,
    event: WorkerEventView,
    nodes: Seq<NodeView>,
    can_sign: bool,
    deadline: u64,
)
    ensures
        ({
            let step = housekeeping_step(state, event, nodes, can_sign, deadline);
            &&& step.action is Request ==> requests_left(step.state) < requests_left(state)
            &&& !(step.action is Request) ==> step.state is Done
            &&& step.action matches ActionView::Request { request, deadline: until } ==> until == deadline && (
            request is Identity <==> state is Ready) && (request is Identity || request is Connect)
            &&& step.action is SubmitSigned ==> can_sign
        }),
{
}

/// The bootstrap connectivity manager of one cycle.
pub struct Housekeeper {
    deadline: u64,
    can_sign: bool,
    state: HousekeepingState,
}

/// What the connectivity manager holds.
pub struct HousekeeperView {
    /// Until when the storage node may answer the requests of this cycle.
    pub deadline: u64,
    /// Whether this node holds a key to sign transactions with.
    pub can_sign: bool,
    /// How far the housekeeping has come.
    pub state: HousekeepingStateView,
}

impl View for Housekeeper {
    type V = HousekeeperView;

    closed spec fn view(&self) -> HousekeeperView {
        HousekeeperView { deadline: self.deadline, can_sign: self.can_sign, state: self.state@ }
    }
}

/// The last step, with the state to go on from.
fn publish(public_key: PublicKey, addresses: Vec<Multiaddr>, can_sign: bool) -> (step: (HousekeepingState, Action))
    ensures
        (HousekeepingStep { state: step.0@, action: step.1@ }) == publishing(
            public_key@,
            byte_strings(addresses@),
            can_sign,
        ),
{
    if can_sign {
        (
            HousekeepingState::Done,
            Action::SubmitSigned(Call::SubmitIpfsIdentity { public_key, multiaddresses: addresses }),
        )
    } else {
        (HousekeepingState::Done, Action::Finished)
    }
}

/// The step that follows the local node's identity, with the state to go on from.
fn identify(
    public_key: PublicKey,
    addresses: Vec<Multiaddr>,
    identities: &Identities,
    can_sign: bool,
    deadline: u64,
) -> (step: (HousekeepingState, Action))
    ensures
        (HousekeepingStep { state: step.0@, action: step.1@ }) == identified(
            public_key@,
            byte_strings(addresses@),
            identities@.nodes,
            can_sign,
            deadline,
        ),
{
    if identities.is_bootstrap_node(&public_key) {
        return (HousekeepingState::Done, Action::Finished);
    }
    match identities.first_bootstrap_node() {
        Some(node) => {
            let count = node.addresses.len();
            if count > 0 {
                let target = clone_bytes(&node.addresses[count - 1]);
                let fallback = if count > 1 {
                    Some(clone_bytes(&node.addresses[count - 2]))
                } else {
                    None
                };
                (
                    HousekeepingState::Connecting { public_key, addresses, fallback },
                    Action::Request { request: IpfsRequest::Connect(target), deadline },
                )
            } else {
                publish(public_key, addresses, can_sign)
            }
        },
        None => publish(public_key, addresses, can_sign),
    }
}

impl Housekeeper {
    /// The connectivity manager of a cycle that starts at `now` (milliseconds
    /// since the epoch). Requests get five seconds from `now`.
    pub fn begin(now: u64, can_sign: bool) -> (keeper: Housekeeper)
        ensures
            keeper@ == (HousekeeperView {
                deadline: moment_after(now, REQUEST_TIMEOUT_MILLIS),
                can_sign,
                state: HousekeepingStateView::Ready,
            }),
    {
        Housekeeper { deadline: request_deadline(now), can_sign, state: HousekeepingState::Ready }
    }

    /// Tells whether the housekeeping of this cycle is over.
    pub fn is_done(&self) -> (done: bool)
        ensures
            done == (self@.state is Done),
    {
        match self.state {
            HousekeepingState::Done => true,
            _ => false,
        }
    }

    /// Takes the report of what the last action came to and says what is to
    /// be done next. `identities` is the identity store of the ledger as the
    /// node sees it.
    pub fn connection_housekeeping(&mut self, identities: &Identities, event: WorkerEvent) -> (action: Action)
        ensures
            (HousekeepingStep { state: final(self)@.state, action: action@ }) == housekeeping_step(
                old(self)@.state,
                event@,
                identities@.nodes,
                old(self)@.can_sign,
                old(self)@.deadline,
            ),
            final(self)@.deadline == old(self)@.deadline,
            final(self)@.can_sign == old(self)@.can_sign,
            action@.is_final() ==> final(self)@.state is Done,
    {
        let mut state = HousekeepingState::Done;
        std::mem::swap(&mut self.state, &mut state);
        let (next, action) = match state {
            HousekeepingState::Ready => match event {
                WorkerEvent::Wake => (
                    HousekeepingState::Identifying,
                    Action::Request { request: IpfsRequest::Identity, deadline: self.deadline },
                ),
                _ => (HousekeepingState::Done, Action::Fault),
            },
            HousekeepingState::Done => match event {
                WorkerEvent::Wake => (HousekeepingState::Done, Action::Finished),
                _ => (HousekeepingState::Done, Action::Fault),
            },
            HousekeepingState::Identifying => match event {
                WorkerEvent::Node(Err(error)) => (HousekeepingState::Done, Action::Abort(error)),
                WorkerEvent::Node(Ok(IpfsResponse::Identity(public_key, addresses))) => identify(
                    public_key,
                    addresses,
                    identities,
                    self.can_sign,
                    self.deadline,
                ),
                _ => (HousekeepingState::Done, Action::Fault),
            },
            HousekeepingState::Connecting { public_key, addresses, fallback } => match event {
                WorkerEvent::Node(outcome) => {
                    let connected = match outcome {
                        Ok(IpfsResponse::Success) => true,
                        _ => false,
                    };
                    match fallback {
                        Some(address) => {
                            if connected {
                                publish(public_key, addresses, self.can_sign)
                            } else {
                                (
                                    HousekeepingState::Retrying { public_key, addresses },
                                    Action::Request { request: IpfsRequest::Connect(address), deadline: self.deadline },
                                )
                            }
                        },
                        None => publish(public_key, addresses, self.can_sign),
                    }
                },
                _ => (HousekeepingState::Done, Action::Fault),
            },
            HousekeepingState::Retrying { public_key, addresses } => match event {
                WorkerEvent::Node(_) => publish(public_key, addresses, self.can_sign),
                _ => (HousekeepingState::Done, Action::Fault),
            },
        };
        self.state = next;
        action
    }
}

} // verus!
