//! The offchain data pipeline: once per cycle it works through the commands
//! that the asset ledger queued, one request to the storage node at a time.
//!
//! The worker never waits and never calls out. It says what is to be done
//! next; its runner does it and reports what came of it.

use vstd::prelude::*;
use crate::commands::{
    commands_view, Action, ActionView, Call, CallView, DataCommand, DataCommandView, IpfsRequest,
    IpfsRequestView, IpfsResponse, IpfsResponseView, WorkerEvent, WorkerEventView,
};
use crate::identity::Identities;
use crate::node::{moment_after, request_deadline, REQUEST_TIMEOUT_MILLIS};
use crate::types::{clone_bytes, AccountId, AssetId, Balance, Cid, Error, Multiaddr};

verus! {

/// How far the command in hand has come.
#[derive(Debug, PartialEq, Eq)]
pub enum CommandState {
    /// No command is in hand.
    Idle,
    /// Adding content: connecting to the source node.
    AddConnecting { source: Multiaddr, cid: Cid, admin: AccountId, asset_id: AssetId, balance: Balance },
    /// Adding content: fetching the bytes from the source node.
    AddFetching { source: Multiaddr, admin: AccountId, asset_id: AssetId, balance: Balance },
    /// Adding content: disconnecting from the source node.
    AddDisconnecting { data: Vec<u8>, admin: AccountId, asset_id: AssetId, balance: Balance },
    /// Adding content: publishing the bytes to the local node.
    AddPublishing { admin: AccountId, asset_id: AssetId, balance: Balance },
    /// Serving content: asking the local node who it is.
    CatIdentifying { requestor: AccountId, owner: AccountId, asset_id: AssetId },
    /// Serving content: asking the asset ledger about the asset.
    CatResolving { owner: AccountId, asset_id: AssetId },
    /// Serving content: fetching the bytes.
    CatFetching { cid: Cid, asset_id: AssetId },
    /// Pinning content: asking the local node who it is.
    PinIdentifying { account: AccountId, asset_id: AssetId, cid: Cid },
    /// Pinning content: waiting for the pin.
    Pinning { account: AccountId, asset_id: AssetId },
}

/// What the progress of a command holds.
pub enum CommandStateView {
    Idle,
    AddConnecting { source: Seq<u8>, cid: Seq<u8>, admin: AccountId, asset_id: AssetId, balance: Balance },
    AddFetching { source: Seq<u8>, admin: AccountId, asset_id: AssetId, balance: Balance },
    AddDisconnecting { data: Seq<u8>, admin: AccountId, asset_id: AssetId, balance: Balance },
    AddPublishing { admin: AccountId, asset_id: AssetId, balance: Balance },
    CatIdentifying { requestor: AccountId, owner: AccountId, asset_id: AssetId },
    CatResolving { owner: AccountId, asset_id: AssetId },
    CatFetching { cid: Seq<u8>, asset_id: AssetId },
    PinIdentifying { account: AccountId, asset_id: AssetId, cid: Seq<u8> },
    Pinning { account: AccountId, asset_id: AssetId },
}

impl View for CommandState {
    type V = CommandStateView;

    open spec fn view(&self) -> CommandStateView {
        match *self {
            CommandState::Idle => CommandStateView::Idle,
            CommandState::AddConnecting { source, cid, admin, asset_id, balance } => CommandStateView::AddConnecting {
                source: source@,
                cid: cid@,
                admin,
                asset_id,
                balance,
            },
            CommandState::AddFetching { source, admin, asset_id, balance } => CommandStateView::AddFetching {
                source: source@,
                admin,
                asset_id,
                balance,
            },
            CommandState::AddDisconnecting { data, admin, asset_id, balance } => CommandStateView::AddDisconnecting {
                data: data@,
                admin,
                asset_id,
                balance,
            },
            CommandState::AddPublishing { admin, asset_id, balance } => CommandStateView::AddPublishing {
                admin,
                asset_id,
                balance,
            },
            CommandState::CatIdentifying { requestor, owner, asset_id } => CommandStateView::CatIdentifying {
                requestor,
                owner,
                asset_id,
            },
            CommandState::CatResolving { owner, asset_id } => CommandStateView::CatResolving { owner, asset_id },
            CommandState::CatFetching { cid, asset_id } => CommandStateView::CatFetching { cid: cid@, asset_id },
            CommandState::PinIdentifying { account, asset_id, cid } => CommandStateView::PinIdentifying {
                account,
                asset_id,
                cid: cid@,
            },
            CommandState::Pinning { account, asset_id } => CommandStateView::Pinning { account, asset_id },
        }
    }
}

/// A step of the pipeline: where it stands afterwards and what it asks for.
pub struct Step {
    pub state: CommandStateView,
    pub action: ActionView,
}

/// The step that drops the command in hand with `action`.
pub open spec fn dropped(action: ActionView) -> Step {
    Step { state: CommandStateView::Idle, action }
}

/// The step that asks the storage node and goes on from `state`.
pub open spec fn asking(state: CommandStateView, request: IpfsRequestView, deadline: u64) -> Step {
    Step { state, action: ActionView::Request { request, deadline } }
}

/// The first step of a command.
///
/// Content is added and pinned by validators only; on another node those
/// commands are skipped. Content is served by every node.
pub open spec fn first_step(command: DataCommandView, is_validator: bool, deadline: u64) -> Step {
    match command {
        DataCommandView::AddBytes(source, cid, admin, asset_id, balance) => {
            if is_validator {
                asking(
                    CommandStateView::AddConnecting { source, cid, admin, asset_id, balance },
                    IpfsRequestView::Connect(source),
                    deadline,
                )
            } else {
                dropped(ActionView::Skip)
            }
        },
        DataCommandView::CatBytes(requestor, owner, asset_id) => asking(
            CommandStateView::CatIdentifying { requestor, owner, asset_id },
            IpfsRequestView::Identity,
            deadline,
        ),
        DataCommandView::PinCID(account, asset_id, cid) => {
            if is_validator {
                asking(
                    CommandStateView::PinIdentifying { account, asset_id, cid },
                    IpfsRequestView::Identity,
                    deadline,
                )
            } else {
                dropped(ActionView::Skip)
            }
        },
    }
}

/// The step that follows a report while a command is in hand.
///
/// A failed request drops the command with the error. A response that the
/// request cannot have, or a report of the wrong kind, drops it as a fault.
/// `bridge` gives the public key that each account published.
pub open spec fn next_step(
    state: CommandStateView,
    event: WorkerEventView,
    bridge: Map<AccountId, Seq<u8>>,
    deadline: u64,
) -> Step {
    match (state, event) {
        (_, WorkerEventView::Node(Err(error))) => dropped(ActionView::Abort(error)),
        (
            CommandStateView::AddConnecting { source, cid, admin, asset_id, balance },
            WorkerEventView::Node(Ok(_)),
        ) => asking(
            CommandStateView::AddFetching { source, admin, asset_id, balance },
            IpfsRequestView::CatBytes(cid),
            deadline,
        ),
        (
            CommandStateView::AddFetching { source, admin, asset_id, balance },
            WorkerEventView::Node(Ok(IpfsResponseView::CatBytes(data))),
        ) => asking(
            CommandStateView::AddDisconnecting { data, admin, asset_id, balance },
            IpfsRequestView::Disconnect(source),
            deadline,
        ),
        (CommandStateView::AddDisconnecting { data, admin, asset_id, balance }, WorkerEventView::Node(Ok(_))) => asking(
            CommandStateView::AddPublishing { admin, asset_id, balance },
            IpfsRequestView::AddBytes(data),
            deadline,
        ),
        (
            CommandStateView::AddPublishing { admin, asset_id, balance },
            WorkerEventView::Node(Ok(IpfsResponseView::AddBytes(cid))),
        ) => dropped(
            ActionView::SubmitSigned(CallView::SubmitIpfsAddResults { admin, cid, id: asset_id, balance }),
        ),
        (
            CommandStateView::CatIdentifying { requestor, owner, asset_id },
            WorkerEventView::Node(Ok(IpfsResponseView::Identity(public_key, _))),
        ) => {
            if public_key == bridge[requestor] {
                Step {
                    state: CommandStateView::CatResolving { owner, asset_id },
                    action: ActionView::ConsultLedger { requestor, asset_id },
                }
            } else {
                dropped(ActionView::Abort(Error::BadOrigin))
            }
        },
        (
            CommandStateView::CatResolving { owner, asset_id },
            WorkerEventView::Ledger { content_address, access_owner },
        ) => {
            if owner == access_owner {
                asking(
                    CommandStateView::CatFetching { cid: content_address, asset_id },
                    IpfsRequestView::CatBytes(content_address),
                    deadline,
                )
            } else {
                dropped(ActionView::Abort(Error::InsufficientBalance))
            }
        },
        (
            CommandStateView::CatFetching { cid, asset_id },
            WorkerEventView::Node(Ok(IpfsResponseView::CatBytes(data))),
        ) => dropped(
            ActionView::CacheAndSubmitUnsigned { key: cid, data, call: CallView::SubmitRpcReady { asset_id } },
        ),
        (
            CommandStateView::PinIdentifying { account, asset_id, cid },
            WorkerEventView::Node(Ok(IpfsResponseView::Identity(public_key, _))),
        ) => {
            if public_key == bridge[account] {
                asking(
                    CommandStateView::Pinning { account, asset_id },
                    IpfsRequestView::InsertPin(cid, false),
                    deadline,
                )
            } else {
                dropped(ActionView::Abort(Error::BadOrigin))
            }
        },
        (
            CommandStateView::Pinning { account, asset_id },
            WorkerEventView::Node(Ok(IpfsResponseView::Success)),
        ) => dropped(
            ActionView::SubmitSigned(CallView::SubmitIpfsPinResult { asset_id, pinner: account }),
        ),
        _ => dropped(ActionView::Fault),
    }
}

/// The offchain data worker of one cycle.
pub struct DataWorker {
    deadline: u64,
    is_validator: bool,
    queue: Vec<DataCommand>,
    state: CommandState,
}

/// What the data worker holds.
pub struct DataWorkerView {
    /// Until when the storage node may answer the requests of this cycle.
    pub deadline: u64,
    /// Whether this node is a validator.
    pub is_validator: bool,
    /// The commands that are still to be taken up, first in first out.
    pub queue: Seq<DataCommandView>,
    /// How far the command in hand has come.
    pub state: CommandStateView,
}

impl View for DataWorker {
    type V = DataWorkerView;

    closed spec fn view(&self) -> DataWorkerView {
        DataWorkerView {
            deadline: self.deadline,
            is_validator: self.is_validator,
            queue: commands_view(self.queue@),
            state: self.state@,
        }
    }
}

/// A step of the cycle: the worker afterwards and what it asks for.
pub struct CycleStep {
    pub worker: DataWorkerView,
    pub action: ActionView,
}

/// The step of the cycle that follows a report.
///
/// With no command in hand the worker takes the oldest queued one, and has
/// finished when none is left; only a wake-up can make it do so. With a
/// command in hand the report is that of the command's last request.
pub open spec fn cycle_step(
    worker: DataWorkerView,
    event: WorkerEventView,
    bridge: Map<AccountId, Seq<u8>>,
) -> CycleStep {
    if worker.state is Idle {
        if !(event is Wake) {
            CycleStep { worker, action: ActionView::Fault }
        } else if worker.queue.len() == 0 {
            CycleStep { worker, action: ActionView::Finished }
        } else {
            let step = first_step(worker.queue[0], worker.is_validator, worker.deadline);
            CycleStep {
                worker: DataWorkerView { queue: worker.queue.skip(1), state: step.state, ..worker },
                action: step.action,
            }
        }
    } else {
        let step = next_step(worker.state, event, bridge, worker.deadline);
        CycleStep { worker: DataWorkerView { state: step.state, ..worker }, action: step.action }
    }
}

/// The worker after a run of reports, the oldest first.
pub open spec fn cycle_after(
    worker: DataWorkerView,
    events: Seq<WorkerEventView>,
    bridge: Map<AccountId, Seq<u8>>,
) -> DataWorkerView
    decreases events.len(),
{
    if events.len() == 0 {
        worker
    } else {
        cycle_step(cycle_after(worker, events.drop_last(), bridge), events.last(), bridge).worker
    }
}

/// A failed request drops the command in hand with the error of the request:
/// nothing is asked of the storage node for it any more, and nothing is submitted.
pub proof fn law_failure_drops_command(
    state: CommandStateView,
    error: Error,
    bridge: Map<AccountId, Seq<u8>>,
    deadline: u64,
)
    ensures
        next_step(state, WorkerEventView::Node(Err(error)), bridge, deadline) == dropped(ActionView::Abort(error)),
{
}

/// Content is announced as ready only when the bytes were fetched, and a
/// signed transaction is submitted only when the storage node published the
/// content or pinned it. A command never starts with a submission.
pub proof fn law_submission_follows_success(
    state: CommandStateView,
    event: WorkerEventView,
    bridge: Map<AccountId, Seq<u8>>,
    deadline: u64,
    command: DataCommandView,
    is_validator: bool,
)
    ensures
        next_step(state, event, bridge, deadline).action is CacheAndSubmitUnsigned ==> state is CatFetching && (
        event matches WorkerEventView::Node(Ok(response)) && response is CatBytes),
        next_step(state, event, bridge, deadline).action is SubmitSigned ==> (state is AddPublishing && (
        event matches WorkerEventView::Node(Ok(response)) && response is AddBytes)) || (state is Pinning
            && event == WorkerEventView::Node(Ok(IpfsResponseView::Success))),
        !(first_step(command, is_validator, deadline).action is CacheAndSubmitUnsigned),
        !(first_step(command, is_validator, deadline).action is SubmitSigned),
        !is_validator && !(command is CatBytes) ==> first_step(command, is_validator, deadline) == dropped(
            ActionView::Skip,
        ),
        next_step(state, event, bridge, deadline).action.is_final() <==> next_step(
            state,
            event,
            bridge,
            deadline,
        ).state is Idle,
{
}

/// The largest number of reports that the command in hand can still take.
pub open spec fn reports_left(state: CommandStateView) -> nat {
    match state {
        CommandStateView::Idle => 0,
        CommandStateView::AddConnecting { .. } => 4,
        CommandStateView::AddFetching { .. } => 3,
        CommandStateView::AddDisconnecting { .. } => 2,
        CommandStateView::AddPublishing { .. } => 1,
        CommandStateView::CatIdentifying { .. } => 3,
        CommandStateView::CatResolving { .. } => 2,
        CommandStateView::CatFetching { .. } => 1,
        CommandStateView::PinIdentifying { .. } => 2,
        CommandStateView::Pinning { .. } => 1,
    }
}

/// Every command comes to an end: each report brings the command in hand
/// closer to it, and a command asks the storage node at most four times.
pub proof fn law_command_ends(
    state: CommandStateView,
    event: WorkerEventView,
    bridge: Map<AccountId, Seq<u8>>,
    deadline: u64,
    command: DataCommandView,
    is_validator: bool,
)
    ensures
        !(state is Idle) ==> reports_left(next_step(state, event, bridge, deadline).state) < reports_left(state),
        reports_left(first_step(command, is_validator, deadline).state) <= 4,
        next_step(state, event, bridge, deadline).action matches ActionView::Request { deadline: until, .. } ==> until
            == deadline,
        first_step(command, is_validator, deadline).action matches ActionView::Request { deadline: until, .. } ==> until
            == deadline,
{
}

/// Whatever is reported during a cycle, the worker takes the queued commands
/// up in their order and takes up none that was not queued when the cycle
/// began: what is left of the queue is always an end of it. The deadline
/// stays that of the cycle.
pub proof fn law_queue_is_drained_in_order(
    worker: DataWorkerView,
    events: Seq<WorkerEventView>,
    bridge: Map<AccountId, Seq<u8>>,
) -> (taken: int)
    ensures
        0 <= taken <= worker.queue.len(),
        taken <= events.len(),
        cycle_after(worker, events, bridge).queue == worker.queue.skip(taken),
        cycle_after(worker, events, bridge).deadline == worker.deadline,
        cycle_after(worker, events, bridge).is_validator == worker.is_validator,
    decreases events.len(),
{
    if events.len() == 0 {
        assert(worker.queue.skip(0) =~= worker.queue);
        0
    } else {
        let taken = law_queue_is_drained_in_order(worker, events.drop_last(), bridge);
        let before = cycle_after(worker, events.drop_last(), bridge);
        let after = cycle_step(before, events.last(), bridge).worker;
        if after.queue == before.queue {
            taken
        } else {
            assert(after.queue == before.queue.skip(1));
            assert(worker.queue.skip(taken).skip(1) =~= worker.queue.skip(taken + 1));
            taken + 1
        }
    }
}

/// The first step of a command, with the state to go on from.
fn start_command(command: DataCommand, is_validator: bool, deadline: u64) -> (step: (CommandState, Action))
    ensures
        (Step { state: step.0@, action: step.1@ }) == first_step(command@, is_validator, deadline),
{
    match command {
        DataCommand::AddBytes(source, cid, admin, asset_id, balance) => {
            if is_validator {
                let target = clone_bytes(&source);
                (
                    CommandState::AddConnecting { source, cid, admin, asset_id, balance },
                    Action::Request { request: IpfsRequest::Connect(target), deadline },
                )
            } else {
                (CommandState::Idle, Action::Skip)
            }
        },
        DataCommand::CatBytes(requestor, owner, asset_id) => (
            CommandState::CatIdentifying { requestor, owner, asset_id },
            Action::Request { request: IpfsRequest::Identity, deadline },
        ),
        DataCommand::PinCID(account, asset_id, cid) => {
            if is_validator {
                (
                    CommandState::PinIdentifying { account, asset_id, cid },
                    Action::Request { request: IpfsRequest::Identity, deadline },
                )
            } else {
                (CommandState::Idle, Action::Skip)
            }
        },
    }
}

/// The step that follows a report while a command is in hand, with the state to go on from.
fn continue_command(
    state: CommandState,
    event: WorkerEvent,
    identities: &Identities,
    deadline: u64,
) -> (step: (CommandState, Action))
    ensures
        (Step { state: step.0@, action: step.1@ }) == next_step(state@, event@, identities@.bridge, deadline),
{
    match event {
        WorkerEvent::Node(Err(error)) => (CommandState::Idle, Action::Abort(error)),
        WorkerEvent::Node(Ok(response)) => match state {
            CommandState::AddConnecting { source, cid, admin, asset_id, balance } => (
                CommandState::AddFetching { source, admin, asset_id, balance },
                Action::Request { request: IpfsRequest::CatBytes(cid), deadline },
            ),
            CommandState::AddFetching { source, admin, asset_id, balance } => match response {
                IpfsResponse::CatBytes(data) => (
                    CommandState::AddDisconnecting { data, admin, asset_id, balance },
                    Action::Request { request: IpfsRequest::Disconnect(source), deadline },
                ),
                _ => (CommandState::Idle, Action::Fault),
            },
            CommandState::AddDisconnecting { data, admin, asset_id, balance } => (
                CommandState::AddPublishing { admin, asset_id, balance },
                Action::Request { request: IpfsRequest::AddBytes(data), deadline },
            ),
            CommandState::AddPublishing { admin, asset_id, balance } => match response {
                IpfsResponse::AddBytes(cid) => (
                    CommandState::Idle,
                    Action::SubmitSigned(Call::SubmitIpfsAddResults { admin, cid, id: asset_id, balance }),
                ),
                _ => (CommandState::Idle, Action::Fault),
            },
            CommandState::CatIdentifying { requestor, owner, asset_id } => match response {
                IpfsResponse::Identity(public_key, _) => {
                    if identities.is_key_of(requestor, &public_key) {
                        (
                            CommandState::CatResolving { owner, asset_id },
                            Action::ConsultLedger { requestor, asset_id },
                        )
                    } else {
                        (CommandState::Idle, Action::Abort(Error::BadOrigin))
                    }
                },
                _ => (CommandState::Idle, Action::Fault),
            },
            CommandState::CatFetching { cid, asset_id } => match response {
                IpfsResponse::CatBytes(data) => (
                    CommandState::Idle,
                    Action::CacheAndSubmitUnsigned { key: cid, data, call: Call::SubmitRpcReady { asset_id } },
                ),
                _ => (CommandState::Idle, Action::Fault),
            },
            CommandState::PinIdentifying { account, asset_id, cid } => match response {
                IpfsResponse::Identity(public_key, _) => {
                    if identities.is_key_of(account, &public_key) {
                        (
                            CommandState::Pinning { account, asset_id },
                            Action::Request { request: IpfsRequest::InsertPin(cid, false), deadline },
                        )
                    } else {
                        (CommandState::Idle, Action::Abort(Error::BadOrigin))
                    }
                },
                _ => (CommandState::Idle, Action::Fault),
            },
            CommandState::Pinning { account, asset_id } => match response {
                IpfsResponse::Success => (
                    CommandState::Idle,
                    Action::SubmitSigned(Call::SubmitIpfsPinResult { asset_id, pinner: account }),
                ),
                _ => (CommandState::Idle, Action::Fault),
            },
            _ => (CommandState::Idle, Action::Fault),
        },
        WorkerEvent::Ledger { content_address, access_owner } => match state {
            CommandState::CatResolving { owner, asset_id } => {
                if owner == access_owner {
                    let cid = clone_bytes(&content_address);
                    (
                        CommandState::CatFetching { cid, asset_id },
                        Action::Request { request: IpfsRequest::CatBytes(content_address), deadline },
                    )
                } else {
                    (CommandState::Idle, Action::Abort(Error::InsufficientBalance))
                }
            },
            _ => (CommandState::Idle, Action::Fault),
        },
        WorkerEvent::Wake => (CommandState::Idle, Action::Fault),
    }
}

impl DataWorker {
    /// The worker of a cycle that starts at `now` (milliseconds since the
    /// epoch) with the commands that are queued at that moment. Requests get
    /// five seconds from `now`.
    pub fn begin(now: u64, is_validator: bool, queue: Vec<DataCommand>) -> (worker: DataWorker)
        ensures
            worker@ == (DataWorkerView {
                deadline: moment_after(now, REQUEST_TIMEOUT_MILLIS),
                is_validator,
                queue: commands_view(queue@),
                state: CommandStateView::Idle,
            }),
    {
        DataWorker { deadline: request_deadline(now), is_validator, queue, state: CommandState::Idle }
    }

    /// The number of commands that are still to be taken up.
    pub fn pending(&self) -> (count: usize)
        ensures
            count == self@.queue.len(),
    {
        self.queue.len()
    }

    /// Tells whether a command is in hand.
    pub fn is_busy(&self) -> (busy: bool)
        ensures
            busy == !(self@.state is Idle),
    {
        match self.state {
            CommandState::Idle => false,
            _ => true,
        }
    }

    /// Takes the report of what the last action came to and says what is to
    /// be done next. `identities` is the identity store of the ledger as the
    /// node sees it.
    ///
    /// A command never outlives a failure: whenever a request fails the
    /// command in hand is dropped with that error, and nothing is submitted
    /// for it. The queue only ever loses its oldest command.
    pub fn handle_data_requests(&mut self, identities: &Identities, event: WorkerEvent) -> (action: Action)
        ensures
            (CycleStep { worker: final(self)@, action: action@ }) == cycle_step(
                old(self)@,
                event@,
                identities@.bridge,
            ),
            final(self)@.deadline == old(self)@.deadline,
            final(self)@.is_validator == old(self)@.is_validator,
            final(self)@.queue == old(self)@.queue || (old(self)@.queue.len() > 0 && final(self)@.queue
                == old(self)@.queue.skip(1)),
            action@.is_final() ==> final(self)@.state is Idle,
            !(old(self)@.state is Idle) ==> (event@ matches WorkerEventView::Node(Err(error)) ==> action@
                == ActionView::Abort(error)),
    {
        let mut state = CommandState::Idle;
        std::mem::swap(&mut self.state, &mut state);
        let busy = match state {
            CommandState::Idle => false,
            _ => true,
        };
        if busy {
            let (next, action) = continue_command(state, event, identities, self.deadline);
            self.state = next;
            action
        } else {
            let wake = match event {
                WorkerEvent::Wake => true,
                _ => false,
            };
            if !wake {
                Action::Fault
            } else if self.queue.len() == 0 {
                assert(self@.queue =~= old(self)@.queue);
                Action::Finished
            } else {
                let command = self.queue.remove(0);
                assert(commands_view(self.queue@) =~= commands_view(old(self).queue@).skip(1));
                let (next, action) = start_command(command, self.is_validator, self.deadline);
                self.state = next;
                action
            }
        }
    }
}

} // verus!
