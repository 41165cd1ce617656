//! What travels between the ledger, the offchain workers and the storage
//! node: queued commands, requests and responses, and the transactions that
//! report results back.

use vstd::prelude::*;
use crate::types::{byte_strings, AccountId, AssetId, Balance, Cid, Error, Multiaddr, PublicKey};

verus! {

/// A command that the asset ledger queued for the offchain worker.
#[derive(Clone, Debug, PartialEq, Eq)]
pub enum DataCommand {
    /// Fetch content from a source node and publish it locally:
    /// source address, content address, admin, asset, balance.
    AddBytes(Multiaddr, Cid, AccountId, AssetId, Balance),
    /// Make an asset's content available to a reader: requestor, owner, asset.
    CatBytes(AccountId, AccountId, AssetId),
    /// Pin an asset's content: account, asset, content address.
    PinCID(AccountId, AssetId, Cid),
}

/// What a queued command holds.
pub enum DataCommandView {
    AddBytes(Seq<u8>, Seq<u8>, AccountId, AssetId, Balance),
    CatBytes(AccountId, AccountId, AssetId),
    PinCID(AccountId, AssetId, Seq<u8>),
}

impl View for DataCommand {
    type V = DataCommandView;

    open spec fn view(&self) -> DataCommandView {
        match *self {
            DataCommand::AddBytes(source, cid, admin, asset_id, balance) => DataCommandView::AddBytes(
                source@,
                cid@,
                admin,
                asset_id,
                balance,
            ),
            DataCommand::CatBytes(requestor, owner, asset_id) => DataCommandView::CatBytes(
                requestor,
                owner,
                asset_id,
            ),
            DataCommand::PinCID(account, asset_id, cid) => DataCommandView::PinCID(account, asset_id, cid@),
        }
    }
}

/// What a list of queued commands holds.
pub open spec fn commands_view(queue: Seq<DataCommand>) -> Seq<DataCommandView> {
    Seq::new(queue.len(), |i: int| queue[i]@)
}

/// A request to the storage node.
#[derive(Clone, Debug, PartialEq, Eq)]
pub enum IpfsRequest {
    /// Ask for the node's public key and addresses.
    Identity,
    /// Connect to the node at an address.
    Connect(Multiaddr),
    /// Disconnect from the node at an address.
    Disconnect(Multiaddr),
    /// Fetch the bytes behind a content address.
    CatBytes(Cid),
    /// Publish bytes and learn their content address.
    AddBytes(Vec<u8>),
    /// Pin a content address, recursively or not.
    InsertPin(Cid, bool),
    /// Ask for the connected peers.
    Peers,
}

/// What a request holds.
pub enum IpfsRequestView {
    Identity,
    Connect(Seq<u8>),
    Disconnect(Seq<u8>),
    CatBytes(Seq<u8>),
    AddBytes(Seq<u8>),
    InsertPin(Seq<u8>, bool),
    Peers,
}

impl View for IpfsRequest {
    type V = IpfsRequestView;

    open spec fn view(&self) -> IpfsRequestView {
        match *self {
            IpfsRequest::Identity => IpfsRequestView::Identity,
            IpfsRequest::Connect(address) => IpfsRequestView::Connect(address@),
            IpfsRequest::Disconnect(address) => IpfsRequestView::Disconnect(address@),
            IpfsRequest::CatBytes(cid) => IpfsRequestView::CatBytes(cid@),
            IpfsRequest::AddBytes(data) => IpfsRequestView::AddBytes(data@),
            IpfsRequest::InsertPin(cid, recursive) => IpfsRequestView::InsertPin(cid@, recursive),
            IpfsRequest::Peers => IpfsRequestView::Peers,
        }
    }
}

/// A response of the storage node.
#[derive(Clone, Debug, PartialEq, Eq)]
pub enum IpfsResponse {
    /// The node's public key and addresses.
    Identity(PublicKey, Vec<Multiaddr>),
    /// The request was carried out.
    Success,
    /// The bytes behind the content address.
    CatBytes(Vec<u8>),
    /// The content address of the published bytes.
    AddBytes(Cid),
    /// The addresses of the connected peers.
    Peers(Vec<Multiaddr>),
}

/// What a response holds.
pub enum IpfsResponseView {
    Identity(Seq<u8>, Seq<Seq<u8>>),
    Success,
    CatBytes(Seq<u8>),
    AddBytes(Seq<u8>),
    Peers(Seq<Seq<u8>>),
}

impl View for IpfsResponse {
    type V = IpfsResponseView;

    open spec fn view(&self) -> IpfsResponseView {
        match *self {
            IpfsResponse::Identity(public_key, addresses) => IpfsResponseView::Identity(
                public_key@,
                byte_strings(addresses@),
            ),
            IpfsResponse::Success => IpfsResponseView::Success,
            IpfsResponse::CatBytes(data) => IpfsResponseView::CatBytes(data@),
            IpfsResponse::AddBytes(cid) => IpfsResponseView::AddBytes(cid@),
            IpfsResponse::Peers(peers) => IpfsResponseView::Peers(byte_strings(peers@)),
        }
    }
}

/// What the outcome of a request holds.
pub open spec fn outcome_view(outcome: Result<IpfsResponse, Error>) -> Result<IpfsResponseView, Error> {
    match outcome {
        Ok(response) => Ok(response@),
        Err(error) => Err(error),
    }
}

/// An operation of the state machine, as a transaction names it.
#[derive(Clone, Debug, PartialEq, Eq)]
pub enum Call {
    /// Add a validator.
    AddValidator { validator_id: AccountId },
    /// Remove a validator.
    RemoveValidator { validator_id: AccountId },
    /// Let an approved validator add itself again.
    AddValidatorAgain { validator_id: AccountId },
    /// Ask to join the storage pool of an asset.
    JoinStoragePool { pool_owner: AccountId, pool_id: AssetId },
    /// Report the content address under which new content was published.
    SubmitIpfsAddResults { admin: AccountId, cid: Cid, id: AssetId, balance: Balance },
    /// Publish a node's storage-network identity.
    SubmitIpfsIdentity { public_key: PublicKey, multiaddresses: Vec<Multiaddr> },
    /// Confirm that an account pinned an asset's content.
    SubmitIpfsPinResult { asset_id: AssetId, pinner: AccountId },
    /// Announce that an asset's content is ready for its reader.
    SubmitRpcReady { asset_id: AssetId },
}

/// What a call holds.
pub enum CallView {
    AddValidator { validator_id: AccountId },
    RemoveValidator { validator_id: AccountId },
    AddValidatorAgain { validator_id: AccountId },
    JoinStoragePool { pool_owner: AccountId, pool_id: AssetId },
    SubmitIpfsAddResults { admin: AccountId, cid: Seq<u8>, id: AssetId, balance: Balance },
    SubmitIpfsIdentity { public_key: Seq<u8>, multiaddresses: Seq<Seq<u8>> },
    SubmitIpfsPinResult { asset_id: AssetId, pinner: AccountId },
    SubmitRpcReady { asset_id: AssetId },
}

impl View for Call {
    type V = CallView;

    open spec fn view(&self) -> CallView {
        match *self {
            Call::AddValidator { validator_id } => CallView::AddValidator { validator_id },
            Call::RemoveValidator { validator_id } => CallView::RemoveValidator { validator_id },
            Call::AddValidatorAgain { validator_id } => CallView::AddValidatorAgain { validator_id },
            Call::JoinStoragePool { pool_owner, pool_id } => CallView::JoinStoragePool { pool_owner, pool_id },
            Call::SubmitIpfsAddResults { admin, cid, id, balance } => CallView::SubmitIpfsAddResults {
                admin,
                cid: cid@,
                id,
                balance,
            },
            Call::SubmitIpfsIdentity { public_key, multiaddresses } => CallView::SubmitIpfsIdentity {
                public_key: public_key@,
                multiaddresses: byte_strings(multiaddresses@),
            },
            Call::SubmitIpfsPinResult { asset_id, pinner } => CallView::SubmitIpfsPinResult { asset_id, pinner },
            Call::SubmitRpcReady { asset_id } => CallView::SubmitRpcReady { asset_id },
        }
    }
}

/// What an offchain worker reports when it is asked to go on.
#[derive(Debug, PartialEq, Eq)]
pub enum WorkerEvent {
    /// Nothing to report: the worker may take up its next piece of work.
    Wake,
    /// The outcome of the request that the worker asked for.
    Node(Result<IpfsResponse, Error>),
    /// What the asset ledger says of the asset that the worker asked about:
    /// its content address, and the owner whose grant the requestor holds.
    Ledger { content_address: Cid, access_owner: AccountId },
}

/// What a worker event holds.
pub enum WorkerEventView {
    Wake,
    Node(Result<IpfsResponseView, Error>),
    Ledger { content_address: Seq<u8>, access_owner: AccountId },
}

impl View for WorkerEvent {
    type V = WorkerEventView;

    open spec fn view(&self) -> WorkerEventView {
        match *self {
            WorkerEvent::Wake => WorkerEventView::Wake,
            WorkerEvent::Node(outcome) => WorkerEventView::Node(outcome_view(outcome)),
            WorkerEvent::Ledger { content_address, access_owner } => WorkerEventView::Ledger {
                content_address: content_address@,
                access_owner,
            },
        }
    }
}

/// What an offchain worker asks its runner to do next.
#[derive(Clone, Debug, PartialEq, Eq)]
pub enum Action {
    /// Send the request to the storage node, wait for the answer until the
    /// deadline at the latest, and report the outcome.
    Request { request: IpfsRequest, deadline: u64 },
    /// Ask the asset ledger for the asset's content address and for the owner
    /// whose grant the requestor holds, and report both.
    ConsultLedger { requestor: AccountId, asset_id: AssetId },
    /// Submit the call as a signed transaction. This ends the piece of work.
    SubmitSigned(Call),
    /// Store the data under the key in local persistent storage, then submit
    /// the call as an unsigned transaction. This ends the piece of work.
    CacheAndSubmitUnsigned { key: Cid, data: Vec<u8>, call: Call },
    /// The piece of work is not for this node. It is dropped.
    Skip,
    /// The piece of work failed and is dropped.
    Abort(Error),
    /// What was reported cannot follow what was asked for. The piece of work is dropped.
    Fault,
    /// Nothing is left to do in this cycle.
    Finished,
}

/// What an action holds.
pub enum ActionView {
    Request { request: IpfsRequestView, deadline: u64 },
    ConsultLedger { requestor: AccountId, asset_id: AssetId },
    SubmitSigned(CallView),
    CacheAndSubmitUnsigned { key: Seq<u8>, data: Seq<u8>, call: CallView },
    Skip,
    Abort(Error),
    Fault,
    Finished,
}

impl View for Action {
    type V = ActionView;

    open spec fn view(&self) -> ActionView {
        match *self {
            Action::Request { request, deadline } => ActionView::Request { request: request@, deadline },
            Action::ConsultLedger { requestor, asset_id } => ActionView::ConsultLedger { requestor, asset_id },
            Action::SubmitSigned(call) => ActionView::SubmitSigned(call@),
            Action::CacheAndSubmitUnsigned { key, data, call } => ActionView::CacheAndSubmitUnsigned {
                key: key@,
                data: data@,
                call: call@,
            },
            Action::Skip => ActionView::Skip,
            Action::Abort(error) => ActionView::Abort(error),
            Action::Fault => ActionView::Fault,
            Action::Finished => ActionView::Finished,
        }
    }
}

impl ActionView {
    /// Tells whether the action ends the piece of work it belongs to.
    pub open spec fn is_final(self) -> bool {
        !(self is Request) && !(self is ConsultLedger)
    }
}

} // verus!
