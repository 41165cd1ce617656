//! The edge to the storage node: what becomes of one request, when requests
//! must have been answered, and what each cycle of the offchain worker runs.

use vstd::prelude::*;
use crate::commands::{outcome_view, IpfsResponse, IpfsResponseView};
use crate::types::Error;

verus! {

/// How long the storage node may take to answer the requests of one cycle, in milliseconds.
pub const REQUEST_TIMEOUT_MILLIS: u64 = 5_000;

/// The housekeeping and the peer report run on every block whose number is a multiple of this.
pub const HOUSEKEEPING_PERIOD: u64 = 5;

/// The moment `millis` milliseconds after `now`, held at the largest moment there is.
pub open spec fn moment_after(now: u64, millis: u64) -> u64 {
    if now + millis > u64::MAX {
        u64::MAX
    } else {
        (now + millis) as u64
    }
}

/// `sp_core::offchain::Timestamp::add`: the timestamp moved forward by a
/// duration. Both are counts of milliseconds, and the sum saturates.
#[verifier::external_body]
fn timestamp_after(now: u64, millis: u64) -> (moment: u64)
    ensures
        moment == moment_after(now, millis),
{
    sp_core::offchain::Timestamp::from_unix_millis(now)
        .add(sp_core::offchain::Duration::from_millis(millis))
        .unix_millis()
}

/// The deadline of the requests of a cycle that starts at `now`
/// (milliseconds since the epoch).
pub fn request_deadline(now: u64) -> (deadline: u64)
    ensures
        deadline == moment_after(now, REQUEST_TIMEOUT_MILLIS),
{
    timestamp_after(now, REQUEST_TIMEOUT_MILLIS)
}

/// How an attempt to ask the storage node ended.
#[derive(Debug, PartialEq, Eq)]
pub enum RequestAttempt {
    /// The request could not be created.
    NotCreated,
    /// No answer came before the deadline.
    TimedOut,
    /// The node answered with an error.
    Failed,
    /// The node answered.
    Answered(IpfsResponse),
}

/// The outcome of a request: the node's response, or the error that stands
/// for the way in which the attempt went wrong.
pub fn ipfs_request(attempt: RequestAttempt) -> (outcome: Result<IpfsResponse, Error>)
    ensures
        attempt is NotCreated ==> outcome == Err::<IpfsResponse, Error>(Error::CantCreateRequest),
        attempt is TimedOut ==> outcome == Err::<IpfsResponse, Error>(Error::RequestTimeout),
        attempt is Failed ==> outcome == Err::<IpfsResponse, Error>(Error::RequestFailed),
        attempt matches RequestAttempt::Answered(response) ==> outcome == Ok::<IpfsResponse, Error>(response),
{
    match attempt {
        RequestAttempt::NotCreated => Err(Error::CantCreateRequest),
        RequestAttempt::TimedOut => Err(Error::RequestTimeout),
        RequestAttempt::Failed => Err(Error::RequestFailed),
        RequestAttempt::Answered(response) => Ok(response),
    }
}

/// What becomes of an unsigned transaction that was handed to the
/// transaction pool: one that the pool refused counts as a request that
/// could not be created.
pub fn unsigned_submission(submitted: Result<(), ()>) -> (outcome: Result<(), Error>)
    ensures
        submitted is Ok ==> outcome is Ok,
        submitted is Err ==> outcome == Err::<(), Error>(Error::CantCreateRequest),
{
    match submitted {
        Ok(_) => Ok(()),
        Err(_) => Err(Error::CantCreateRequest),
    }
}

/// What one cycle of the offchain worker runs.
#[derive(Clone, Copy, Debug, PartialEq, Eq, Structural)]
pub struct Schedule {
    /// Look after the connection to the storage network.
    pub housekeeping: bool,
    /// Work through the queued data commands.
    pub data_requests: bool,
    /// Report the number of connected peers.
    pub metadata: bool,
}

/// The work of the cycle at a block: the data commands on every block, the
/// housekeeping and the peer report on every fifth.
pub fn offchain_worker(block_number: u64) -> (schedule: Schedule)
    ensures
        schedule.data_requests,
        schedule.housekeeping == (block_number % HOUSEKEEPING_PERIOD == 0),
        schedule.metadata == (block_number % HOUSEKEEPING_PERIOD == 0),
{
    let periodic = block_number % HOUSEKEEPING_PERIOD == 0;
    Schedule { housekeeping: periodic, data_requests: true, metadata: periodic }
}

/// What the peer report found.
#[derive(Clone, Copy, Debug, PartialEq, Eq, Structural)]
pub enum PeerReport {
    /// The node is connected to this many peers.
    Connected(usize),
    /// The request for the peers failed.
    Failed(Error),
    /// The node answered the request for its peers with something else.
    Fault,
}

/// The peer report that follows from the outcome of a request for the
/// connected peers. Nothing is changed by it.
pub fn print_metadata(outcome: Result<IpfsResponse, Error>) -> (report: PeerReport)
    ensures
        report == match outcome_view(outcome) {
            Ok(IpfsResponseView::Peers(peers)) => PeerReport::Connected(peers.len() as usize),
            Ok(_) => PeerReport::Fault,
            Err(error) => PeerReport::Failed(error),
        },
{
    match outcome {
        Ok(IpfsResponse::Peers(peers)) => PeerReport::Connected(peers.len()),
        Ok(_) => PeerReport::Fault,
        Err(error) => PeerReport::Failed(error),
    }
}

} // verus!
