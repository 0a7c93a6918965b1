//! The data-plane protocols that a secondary serves: the stream of incremental
//! operations, the copy context it reports before a build, and the copy stream
//! that carries full state during a build.
//!
//! Each protocol is a step function. The application performs the action that
//! a step asks for and hands the outcome back as the next event.

use vstd::prelude::*;

use crate::replicator::payload;
use crate::replicator::secondary::{ReplicationItem, SecondaryState, SecondaryView, StaleEpoch};
use crate::text;
use crate::types::{Epoch, Lsn};

verus! {

/// The greater of two LSNs.
pub open spec fn greater(a: Lsn, b: Lsn) -> Lsn {
    if a >= b {
        a
    } else {
        b
    }
}

fn greater_lsn(a: Lsn, b: Lsn) -> (g: Lsn)
    ensures
        g == greater(a, b),
{
    if a >= b {
        a
    } else {
        b
    }
}

/// Progress that the partition reports for elections.
#[derive(Clone, Copy, Debug, PartialEq, Eq, Structural)]
pub struct PartitionProgress {
    pub current_progress: Lsn,
    pub committed_lsn: Lsn,
}

impl PartitionProgress {
    /// The progress once the operation at `lsn` counts, with `committed` as the
    /// commit watermark that came with it.
    pub open spec fn advanced(self, lsn: Lsn, committed: Lsn) -> PartitionProgress {
        PartitionProgress {
            current_progress: greater(self.current_progress, lsn),
            committed_lsn: greater(self.committed_lsn, committed),
        }
    }

    pub fn new() -> (progress: PartitionProgress)
        ensures
            progress == (PartitionProgress { current_progress: 0, committed_lsn: 0 }),
    {
        PartitionProgress { current_progress: 0, committed_lsn: 0 }
    }

    fn advance(&mut self, lsn: Lsn, committed: Lsn)
        ensures
            *final(self) == old(self).advanced(lsn, committed),
    {
        self.committed_lsn = greater_lsn(self.committed_lsn, committed);
        self.current_progress = greater_lsn(self.current_progress, lsn);
    }
}

/// An operation handed to the application.
pub struct Operation {
    pub lsn: Lsn,
    pub data: bytes::Bytes,
}

impl Operation {
    /// Whether this is the operation at `lsn` with the given payload.
    pub open spec fn is(self, lsn: Lsn, data: Seq<u8>) -> bool {
        self.lsn == lsn && payload::contents(self.data) == data
    }
}

/// Acknowledgement of a replicated operation.
#[derive(Clone, Copy, Debug, PartialEq, Eq, Structural)]
pub struct ReplicationAck {
    pub lsn: Lsn,
}

/// One piece of a copied state. The item marked as boundary carries no data; its
/// LSN is the LSN of the whole copy.
#[derive(Clone, Debug)]
pub struct CopyItem {
    pub lsn: Lsn,
    pub data: Vec<u8>,
    pub is_boundary: bool,
}

/// One operation of a copy context, as it goes over the wire.
#[derive(Clone, Debug)]
pub struct RawOperation {
    pub lsn: Lsn,
    pub data: Vec<u8>,
}

/// Status codes that the data plane answers with.
#[derive(Clone, Copy, Debug, PartialEq, Eq, Structural)]
pub enum StatusCode {
    FailedPrecondition,
    InvalidArgument,
    Internal,
}

/// Errors that the data plane answers with.
#[derive(Debug)]
pub enum ReceiverError {
    /// A replication item of an older epoch.
    Stale(StaleEpoch),
    /// The copy stream is used once; it was used already or never existed.
    CopyUnavailable,
    ItemAfterBoundary,
    BoundaryMissing,
    DataBeyondBoundary,
    /// The application no longer takes copy data.
    CopyReceiverClosed,
    /// The application dropped the completion of the copy.
    CopyNotCompleted,
    StreamFailed(String),
    ProviderClosed,
    ProviderReplyDropped,
    ProviderFailed(String),
}

impl ReceiverError {
    pub open spec fn spec_code(self) -> StatusCode {
        match self {
            ReceiverError::Stale(_) => StatusCode::FailedPrecondition,
            ReceiverError::CopyUnavailable => StatusCode::FailedPrecondition,
            ReceiverError::ItemAfterBoundary => StatusCode::InvalidArgument,
            ReceiverError::BoundaryMissing => StatusCode::InvalidArgument,
            ReceiverError::DataBeyondBoundary => StatusCode::InvalidArgument,
            _ => StatusCode::Internal,
        }
    }

    /// The status code of this error.
    pub fn code(&self) -> (code: StatusCode)
        ensures
            code == self.spec_code(),
    {
        match self {
            ReceiverError::Stale(_) => StatusCode::FailedPrecondition,
            ReceiverError::CopyUnavailable => StatusCode::FailedPrecondition,
            ReceiverError::ItemAfterBoundary => StatusCode::InvalidArgument,
            ReceiverError::BoundaryMissing => StatusCode::InvalidArgument,
            ReceiverError::DataBeyondBoundary => StatusCode::InvalidArgument,
            _ => StatusCode::Internal,
        }
    }

    pub open spec fn epoch_text(epoch: Epoch) -> Seq<char> {
        "Epoch { data_loss_number: "@ + text::decimal(epoch.data_loss_number as int)
            + ", configuration_number: "@ + text::decimal(epoch.configuration_number as int) + " }"@
    }

    pub open spec fn spec_message(self) -> Seq<char> {
        match self {
            ReceiverError::Stale(stale) => "stale epoch: got "@ + Self::epoch_text(stale.got)
                + ", current "@ + Self::epoch_text(stale.current),
            ReceiverError::CopyUnavailable => "copy stream not available or already used"@,
            ReceiverError::ItemAfterBoundary => "copy item after completion boundary"@,
            ReceiverError::BoundaryMissing => "copy completion boundary missing"@,
            ReceiverError::DataBeyondBoundary => "copy data exceeds completion boundary"@,
            ReceiverError::CopyReceiverClosed => "copy stream receiver closed"@,
            ReceiverError::CopyNotCompleted => "application did not complete copy"@,
            ReceiverError::StreamFailed(reason) => reason@,
            ReceiverError::ProviderClosed => "state provider closed"@,
            ReceiverError::ProviderReplyDropped => "state provider reply dropped"@,
            ReceiverError::ProviderFailed(reason) => reason@,
        }
    }

    fn append_epoch(out: &mut String, epoch: Epoch)
        ensures
            final(out)@ =~= old(out)@ + Self::epoch_text(epoch),
    {
        out.append("Epoch { data_loss_number: ");
        out.append(text::decimal_text(epoch.data_loss_number).as_str());
        out.append(", configuration_number: ");
        out.append(text::decimal_text(epoch.configuration_number).as_str());
        out.append(" }");
    }

    /// The message that goes with the status code.
    pub fn message(&self) -> (message: String)
        ensures
            message@ =~= self.spec_message(),
    {
        match self {
            ReceiverError::Stale(stale) => {
                let mut out = "stale epoch: got ".to_owned();
                Self::append_epoch(&mut out, stale.got);
                out.append(", current ");
                Self::append_epoch(&mut out, stale.current);
                out
            },
            ReceiverError::CopyUnavailable => "copy stream not available or already used".to_owned(),
            ReceiverError::ItemAfterBoundary => "copy item after completion boundary".to_owned(),
            ReceiverError::BoundaryMissing => "copy completion boundary missing".to_owned(),
            ReceiverError::DataBeyondBoundary => "copy data exceeds completion boundary".to_owned(),
            ReceiverError::CopyReceiverClosed => "copy stream receiver closed".to_owned(),
            ReceiverError::CopyNotCompleted => "application did not complete copy".to_owned(),
            ReceiverError::StreamFailed(reason) => reason.clone(),
            ReceiverError::ProviderClosed => "state provider closed".to_owned(),
            ReceiverError::ProviderReplyDropped => "state provider reply dropped".to_owned(),
            ReceiverError::ProviderFailed(reason) => reason.clone(),
        }
    }
}

/// What a [`SecondaryReceiver`] holds.
#[verifier::ext_equal]
pub struct ReceiverView {
    pub state: SecondaryView,
    /// Progress published for elections; absent in volatile mode.
    pub partition: Option<PartitionProgress>,
    /// Whether operations go to the application, which acknowledges them.
    pub forwards: bool,
    /// Whether the one-time copy stream is still unused.
    pub copy_available: bool,
    /// Whether a state provider answers copy-context requests.
    pub has_provider: bool,
}

/// The data server of a secondary.
pub struct SecondaryReceiver {
    state: SecondaryState,
    partition: Option<PartitionProgress>,
    forwards: bool,
    copy_available: bool,
    has_provider: bool,
}

impl View for SecondaryReceiver {
    type V = ReceiverView;

    closed spec fn view(&self) -> ReceiverView {
        ReceiverView {
            state: self.state@,
            partition: self.partition,
            forwards: self.forwards,
            copy_available: self.copy_available,
            has_provider: self.has_provider,
        }
    }
}

/// Where a replication stream stands.
#[derive(Clone, Copy, Debug, PartialEq, Eq, Structural)]
pub enum ReplicationPhase {
    Receiving,
    Forwarding { lsn: Lsn, committed_lsn: Lsn },
    AwaitingApplication { lsn: Lsn, committed_lsn: Lsn },
    Acknowledging { lsn: Lsn },
    Stopped,
}

/// What happened to a replication stream.
pub enum ReplicationEvent {
    Item(ReplicationItem),
    StreamFailed,
    StreamEnded,
    /// The operation was handed to the application, or the application is gone.
    Forwarded(bool),
    /// The application acknowledged the operation, or dropped it.
    ApplicationDone(bool),
    /// The acknowledgement was sent to the primary, or the primary is gone.
    AckSent(bool),
}

/// What a replication stream asks for next.
pub enum ReplicationAction {
    Receive,
    Forward(Operation),
    AwaitApplication,
    SendAck(ReplicationAck),
    /// End the stream; the last item may have been refused.
    Stop { refusal: Option<StaleEpoch> },
}

impl ReplicationPhase {
    /// Whether `event` answers what was asked for last.
    pub open spec fn spec_expects(self, event: ReplicationEvent) -> bool {
        match self {
            ReplicationPhase::Receiving => event is Item || event is StreamFailed
                || event is StreamEnded,
            ReplicationPhase::Forwarding { .. } => event is Forwarded,
            ReplicationPhase::AwaitingApplication { .. } => event is ApplicationDone,
            ReplicationPhase::Acknowledging { .. } => event is AckSent,
            ReplicationPhase::Stopped => false,
        }
    }

    /// Decides [`ReplicationPhase::spec_expects`].
    pub fn expects(&self, event: &ReplicationEvent) -> (fits: bool)
        ensures
            fits == self.spec_expects(*event),
    {
        match (self, event) {
            (ReplicationPhase::Receiving, ReplicationEvent::Item(_)) => true,
            (ReplicationPhase::Receiving, ReplicationEvent::StreamFailed) => true,
            (ReplicationPhase::Receiving, ReplicationEvent::StreamEnded) => true,
            (ReplicationPhase::Forwarding { .. }, ReplicationEvent::Forwarded(_)) => true,
            (
                ReplicationPhase::AwaitingApplication { .. },
                ReplicationEvent::ApplicationDone(_),
            ) => true,
            (ReplicationPhase::Acknowledging { .. }, ReplicationEvent::AckSent(_)) => true,
            _ => false,
        }
    }
}

impl ReceiverView {
    /// The receiver once the operation at `lsn` counts as persisted.
    pub open spec fn with_progress(self, lsn: Lsn, committed: Lsn) -> ReceiverView {
        ReceiverView {
            partition: match self.partition {
                Some(progress) => Some(progress.advanced(lsn, committed)),
                None => None,
            },
            ..self
        }
    }

    /// The receiver after `event`.
    pub open spec fn after_replication(
        self,
        phase: ReplicationPhase,
        event: ReplicationEvent,
    ) -> ReceiverView {
        match (phase, event) {
            (ReplicationPhase::Receiving, ReplicationEvent::Item(item)) => if self.state.refuses(
                item.epoch(),
            ) {
                self
            } else {
                let logged = ReceiverView { state: self.state.with_item(item), ..self };
                if self.forwards {
                    logged
                } else {
                    logged.with_progress(item.lsn, item.committed_lsn)
                }
            },
            (
                ReplicationPhase::AwaitingApplication { lsn, committed_lsn },
                ReplicationEvent::ApplicationDone(true),
            ) => self.with_progress(lsn, committed_lsn),
            _ => self,
        }
    }

    /// Why the item that came with `event` is refused, if it is.
    pub open spec fn refusal(self, event: ReplicationEvent) -> Option<StaleEpoch> {
        match event {
            ReplicationEvent::Item(item) => if self.state.refuses(item.epoch()) {
                Some(StaleEpoch { got: item.epoch(), current: self.state.epoch })
            } else {
                None
            },
            _ => None,
        }
    }

    /// Where the stream stands after `event`.
    pub open spec fn replication_phase(
        self,
        phase: ReplicationPhase,
        event: ReplicationEvent,
    ) -> ReplicationPhase {
        match (phase, event) {
            (ReplicationPhase::Receiving, ReplicationEvent::Item(item)) => if self.state.refuses(
                item.epoch(),
            ) {
                ReplicationPhase::Stopped
            } else if self.forwards {
                ReplicationPhase::Forwarding { lsn: item.lsn, committed_lsn: item.committed_lsn }
            } else {
                ReplicationPhase::Acknowledging { lsn: item.lsn }
            },
            (
                ReplicationPhase::Forwarding { lsn, committed_lsn },
                ReplicationEvent::Forwarded(true),
            ) => ReplicationPhase::AwaitingApplication { lsn, committed_lsn },
            (
                ReplicationPhase::AwaitingApplication { lsn, .. },
                ReplicationEvent::ApplicationDone(true),
            ) => ReplicationPhase::Acknowledging { lsn },
            (ReplicationPhase::Acknowledging { .. }, ReplicationEvent::AckSent(true)) => {
                ReplicationPhase::Receiving
            },
            _ => ReplicationPhase::Stopped,
        }
    }
}

/// Whether `action` is what a stream that has come to `phase` asks for. An
/// operation is forwarded with the payload `data`; a stream that stops tells the
/// `refusal` of the last item.
pub open spec fn asks_for(
    phase: ReplicationPhase,
    data: Seq<u8>,
    refusal: Option<StaleEpoch>,
    action: ReplicationAction,
) -> bool {
    match phase {
        ReplicationPhase::Receiving => action is Receive,
        ReplicationPhase::Forwarding { lsn, .. } => action matches ReplicationAction::Forward(op)
            && op.is(lsn, data),
        ReplicationPhase::AwaitingApplication { .. } => action is AwaitApplication,
        ReplicationPhase::Acknowledging { lsn } => action == ReplicationAction::SendAck(
            ReplicationAck { lsn },
        ),
        ReplicationPhase::Stopped => action == (ReplicationAction::Stop { refusal }),
    }
}

/// The payload that came with an event.
pub open spec fn event_data(event: ReplicationEvent) -> Seq<u8> {
    match event {
        ReplicationEvent::Item(item) => item.data@,
        _ => Seq::empty(),
    }
}

impl SecondaryReceiver {
    /// A receiver in volatile mode: operations are acknowledged as they arrive.
    pub fn new(state: SecondaryState) -> (receiver: SecondaryReceiver)
        ensures
            receiver@ == ReceiverView::volatile(state@),
    {
        SecondaryReceiver {
            state,
            partition: None,
            forwards: false,
            copy_available: false,
            has_provider: false,
        }
    }

    /// A receiver in persisted mode, with full copy support.
    pub fn with_streams(state: SecondaryState, partition: PartitionProgress) -> (receiver:
        SecondaryReceiver)
        ensures
            receiver@ == ReceiverView::persisted(state@, partition),
    {
        SecondaryReceiver {
            state,
            partition: Some(partition),
            forwards: true,
            copy_available: true,
            has_provider: true,
        }
    }

    /// The log, epoch and progress of this secondary.
    pub fn state(&self) -> (state: &SecondaryState)
        ensures
            state@ == self@.state,
    {
        &self.state
    }

    /// Takes up a new epoch in the log.
    pub fn update_epoch(&mut self, new_epoch: Epoch)
        ensures
            final(self)@ == old(self)@.with_epoch(new_epoch),
    {
        self.state.update_epoch(new_epoch);
    }

    /// The progress published for elections.
    pub fn partition(&self) -> (partition: Option<PartitionProgress>)
        ensures
            partition == self@.partition,
    {
        self.partition
    }

    fn publish(&mut self, lsn: Lsn, committed: Lsn)
        ensures
            final(self)@ == old(self)@.with_progress(lsn, committed),
    {
        match self.partition {
            Some(progress) => {
                let mut next = progress;
                next.advance(lsn, committed);
                self.partition = Some(next);
            },
            None => {},
        }
    }

    /// One step of a replication stream. An operation is logged when it arrives;
    /// it counts as progress, and is acknowledged to the primary, only once the
    /// application has acknowledged it (at once in volatile mode). A stale item,
    /// a broken stream or a peer that is gone ends the stream.
    pub fn replication_stream(&mut self, phase: ReplicationPhase, event: ReplicationEvent) -> (step:
        (ReplicationPhase, ReplicationAction))
        requires
            phase.spec_expects(event),
        ensures
            final(self)@ == old(self)@.after_replication(phase, event),
            step.0 == old(self)@.replication_phase(phase, event),
            asks_for(step.0, event_data(event), old(self)@.refusal(event), step.1),
    {
        match (phase, event) {
            (ReplicationPhase::Receiving, ReplicationEvent::Item(item)) => {
                match self.state.accept_item(&item) {
                    Ok(()) => {
                        if self.forwards {
                            let operation = Operation {
                                lsn: item.lsn,
                                data: payload::from_slice(item.data.as_slice()),
                            };
                            (
                                ReplicationPhase::Forwarding {
                                    lsn: item.lsn,
                                    committed_lsn: item.committed_lsn,
                                },
                                ReplicationAction::Forward(operation),
                            )
                        } else {
                            self.publish(item.lsn, item.committed_lsn);
                            (
                                ReplicationPhase::Acknowledging { lsn: item.lsn },
                                ReplicationAction::SendAck(ReplicationAck { lsn: item.lsn }),
                            )
                        }
                    },
                    Err(stale) => (
                        ReplicationPhase::Stopped,
                        ReplicationAction::Stop { refusal: Some(stale) },
                    ),
                }
            },
            (
                ReplicationPhase::Forwarding { lsn, committed_lsn },
                ReplicationEvent::Forwarded(true),
            ) => (
                ReplicationPhase::AwaitingApplication { lsn, committed_lsn },
                ReplicationAction::AwaitApplication,
            ),
            (
                ReplicationPhase::AwaitingApplication { lsn, committed_lsn },
                ReplicationEvent::ApplicationDone(true),
            ) => {
                self.publish(lsn, committed_lsn);
                (
                    ReplicationPhase::Acknowledging { lsn },
                    ReplicationAction::SendAck(ReplicationAck { lsn }),
                )
            },
            (ReplicationPhase::Acknowledging { .. }, ReplicationEvent::AckSent(true)) => (
                ReplicationPhase::Receiving,
                ReplicationAction::Receive,
            ),
            _ => (ReplicationPhase::Stopped, ReplicationAction::Stop { refusal: None }),
        }
    }
}

/// What a copy stream has carried so far.
#[derive(Clone, Copy, Debug, PartialEq, Eq, Structural)]
pub struct CopyTally {
    /// Items handed to the application.
    pub count: i64,
    /// Highest LSN of any item.
    pub progress: Option<Lsn>,
    /// LSN of the boundary.
    pub boundary: Option<Lsn>,
}

impl CopyTally {
    pub open spec fn empty() -> CopyTally {
        CopyTally { count: 0, progress: None, boundary: None }
    }

    /// The tally once an item at `lsn` has arrived.
    pub open spec fn with_item(self, lsn: Lsn, is_boundary: bool) -> CopyTally {
        CopyTally {
            count: self.count,
            progress: match self.progress {
                Some(highest) => Some(greater(highest, lsn)),
                None => Some(lsn),
            },
            boundary: if is_boundary {
                Some(lsn)
            } else {
                self.boundary
            },
        }
    }

    /// The tally once the application has taken an item.
    pub open spec fn with_delivery(self) -> CopyTally {
        CopyTally { count: (self.count + 1) as i64, ..self }
    }
}

/// Where a copy stream stands.
#[derive(Clone, Copy, Debug, PartialEq, Eq, Structural)]
pub enum CopyPhase {
    Receiving(CopyTally),
    Delivering(CopyTally),
    Completing { count: i64, progress: Lsn },
    AwaitingCompletion { count: i64, progress: Lsn },
    Finished,
}

/// What happened to a copy stream.
pub enum CopyEvent {
    Item(CopyItem),
    StreamFailed(String),
    StreamEnded,
    /// The item was handed to the application, or the application is gone.
    Delivered(bool),
    /// The completion was handed to the application, or the application is gone.
    CompletionSent(bool),
    /// The application acknowledged the completion, or dropped it.
    CompletionDone(bool),
}

/// What a copy stream asks for next.
pub enum CopyAction {
    Receive,
    Deliver(Operation),
    /// Tell the application that the copy is complete at `lsn`; nothing follows.
    SendCompletion { lsn: Lsn },
    AwaitCompletion,
    Respond { items_received: i64 },
    Fail(ReceiverError),
}

impl CopyPhase {
    /// Whether `event` answers what was asked for last; an item can only be taken
    /// while the count of items has room for it.
    pub open spec fn spec_expects(self, event: CopyEvent) -> bool {
        match self {
            CopyPhase::Receiving(_) => event is Item || event is StreamFailed
                || event is StreamEnded,
            CopyPhase::Delivering(tally) => event matches CopyEvent::Delivered(taken) && (taken
                ==> tally.count < i64::MAX),
            CopyPhase::Completing { .. } => event is CompletionSent,
            CopyPhase::AwaitingCompletion { .. } => event is CompletionDone,
            CopyPhase::Finished => false,
        }
    }

    /// Decides [`CopyPhase::spec_expects`].
    pub fn expects(&self, event: &CopyEvent) -> (fits: bool)
        ensures
            fits == self.spec_expects(*event),
    {
        match (self, event) {
            (CopyPhase::Receiving(_), CopyEvent::Item(_)) => true,
            (CopyPhase::Receiving(_), CopyEvent::StreamFailed(_)) => true,
            (CopyPhase::Receiving(_), CopyEvent::StreamEnded) => true,
            (CopyPhase::Delivering(tally), CopyEvent::Delivered(taken)) => !*taken || tally.count
                < i64::MAX,
            (CopyPhase::Completing { .. }, CopyEvent::CompletionSent(_)) => true,
            (CopyPhase::AwaitingCompletion { .. }, CopyEvent::CompletionDone(_)) => true,
            _ => false,
        }
    }

    /// The error that `event` ends the stream with, if it does.
    pub open spec fn refusal(self, event: CopyEvent) -> Option<ReceiverError> {
        match (self, event) {
            (CopyPhase::Receiving(tally), CopyEvent::Item(_)) => if tally.boundary is Some {
                Some(ReceiverError::ItemAfterBoundary)
            } else {
                None
            },
            (CopyPhase::Receiving(_), CopyEvent::StreamFailed(reason)) => Some(
                ReceiverError::StreamFailed(reason),
            ),
            (CopyPhase::Receiving(tally), CopyEvent::StreamEnded) => if tally.boundary is None {
                Some(ReceiverError::BoundaryMissing)
            } else if tally.progress != tally.boundary {
                Some(ReceiverError::DataBeyondBoundary)
            } else {
                None
            },
            (CopyPhase::Delivering(_), CopyEvent::Delivered(false)) => Some(
                ReceiverError::CopyReceiverClosed,
            ),
            (CopyPhase::Completing { .. }, CopyEvent::CompletionSent(false)) => Some(
                ReceiverError::CopyReceiverClosed,
            ),
            (CopyPhase::AwaitingCompletion { .. }, CopyEvent::CompletionDone(false)) => Some(
                ReceiverError::CopyNotCompleted,
            ),
            _ => None,
        }
    }

    /// Where the stream stands after `event`.
    pub open spec fn next(self, event: CopyEvent) -> CopyPhase {
        if self.refusal(event) is Some {
            CopyPhase::Finished
        } else {
            match (self, event) {
                (CopyPhase::Receiving(tally), CopyEvent::Item(item)) => {
                    let counted = tally.with_item(item.lsn, item.is_boundary);
                    if item.is_boundary {
                        CopyPhase::Receiving(counted)
                    } else {
                        CopyPhase::Delivering(counted)
                    }
                },
                (CopyPhase::Delivering(tally), CopyEvent::Delivered(true)) => CopyPhase::Receiving(
                    tally.with_delivery(),
                ),
                (CopyPhase::Receiving(tally), CopyEvent::StreamEnded) => CopyPhase::Completing {
                    count: tally.count,
                    progress: tally.boundary->Some_0,
                },
                (CopyPhase::Completing { count, progress }, CopyEvent::CompletionSent(true)) => {
                    CopyPhase::AwaitingCompletion { count, progress }
                },
                _ => CopyPhase::Finished,
            }
        }
    }

    /// Whether `action` is what the stream asks for once `event` has happened.
    pub open spec fn asks_for(self, event: CopyEvent, action: CopyAction) -> bool {
        match self.refusal(event) {
            Some(error) => action == CopyAction::Fail(error),
            None => match self.next(event) {
                CopyPhase::Receiving(_) => action is Receive,
                CopyPhase::Delivering(_) => action matches CopyAction::Deliver(op)
                    && event matches CopyEvent::Item(item) && op.is(item.lsn, item.data@),
                CopyPhase::Completing { progress, .. } => action == (CopyAction::SendCompletion {
                    lsn: progress,
                }),
                CopyPhase::AwaitingCompletion { .. } => action is AwaitCompletion,
                CopyPhase::Finished => action == (CopyAction::Respond {
                    items_received: self->AwaitingCompletion_count,
                }),
            },
        }
    }
}

impl ReceiverView {
    /// The receiver once its copy stream is used.
    pub open spec fn with_copy_taken(self) -> ReceiverView {
        ReceiverView { copy_available: false, ..self }
    }

    /// How a copy begins.
    pub open spec fn copy_begun(self) -> Result<CopyPhase, ReceiverError> {
        if self.copy_available {
            Ok(CopyPhase::Receiving(CopyTally::empty()))
        } else {
            Err(ReceiverError::CopyUnavailable)
        }
    }

    /// The receiver in volatile mode.
    pub open spec fn volatile(state: SecondaryView) -> ReceiverView {
        ReceiverView {
            state,
            partition: None,
            forwards: false,
            copy_available: false,
            has_provider: false,
        }
    }

    /// The receiver in persisted mode.
    pub open spec fn persisted(state: SecondaryView, partition: PartitionProgress) -> ReceiverView {
        ReceiverView {
            state,
            partition: Some(partition),
            forwards: true,
            copy_available: true,
            has_provider: true,
        }
    }

    /// The receiver once it has taken up `epoch`.
    pub open spec fn with_epoch(self, epoch: Epoch) -> ReceiverView {
        ReceiverView { state: self.state.with_epoch(epoch), ..self }
    }

    /// The receiver after a copy event: a completed copy counts as progress and
    /// as committed.
    pub open spec fn after_copy(self, phase: CopyPhase, event: CopyEvent) -> ReceiverView {
        match (phase, event) {
            (
                CopyPhase::AwaitingCompletion { progress, .. },
                CopyEvent::CompletionDone(true),
            ) => self.with_progress(progress, progress),
            _ => self,
        }
    }
}

impl ReceiverView {
    /// Whether `answer` is how a copy-context request is answered.
    pub open spec fn answers_context(
        self,
        reply: ProviderReply,
        answer: Result<Vec<RawOperation>, ReceiverError>,
    ) -> bool {
        if !self.has_provider {
            answer is Ok && answer->Ok_0@.len() == 0
        } else {
            match reply {
                ProviderReply::Closed => answer == Err::<Vec<RawOperation>, ReceiverError>(
                    ReceiverError::ProviderClosed,
                ),
                ProviderReply::Dropped => answer == Err::<Vec<RawOperation>, ReceiverError>(
                    ReceiverError::ProviderReplyDropped,
                ),
                ProviderReply::Failed(reason) => answer == Err::<Vec<RawOperation>, ReceiverError>(
                    ReceiverError::ProviderFailed(reason),
                ),
                ProviderReply::Operations(operations) => answer is Ok && is_wire_form(
                    operations@,
                    answer->Ok_0@,
                ),
            }
        }
    }
}

/// What became of a request to the state provider for a copy context.
pub enum ProviderReply {
    /// The provider no longer takes requests.
    Closed,
    /// The provider dropped the request.
    Dropped,
    Failed(String),
    Operations(Vec<Operation>),
}

/// Whether `sent` is the wire form of `operations`.
pub open spec fn is_wire_form(operations: Seq<Operation>, sent: Seq<RawOperation>) -> bool {
    &&& sent.len() == operations.len()
    &&& forall|i: int|
        #![trigger sent[i]]
        0 <= i < sent.len() ==> operations[i].is(sent[i].lsn, sent[i].data@)
}

impl SecondaryReceiver {
    /// Takes the one-time copy stream.
    pub fn begin_copy(&mut self) -> (begun: Result<CopyPhase, ReceiverError>)
        ensures
            final(self)@ == old(self)@.with_copy_taken(),
            begun == old(self)@.copy_begun(),
    {
        if self.copy_available {
            self.copy_available = false;
            Ok(CopyPhase::Receiving(CopyTally { count: 0, progress: None, boundary: None }))
        } else {
            Err(ReceiverError::CopyUnavailable)
        }
    }

    /// One step of a copy stream. Data goes to the application as it arrives; the
    /// last item is the boundary, which no LSN exceeds. The copy counts as progress
    /// only once the application has acknowledged its completion.
    pub fn copy_stream(&mut self, phase: CopyPhase, event: CopyEvent) -> (step: (
        CopyPhase,
        CopyAction,
    ))
        requires
            phase.spec_expects(event),
        ensures
            final(self)@ == old(self)@.after_copy(phase, event),
            step.0 == phase.next(event),
            phase.asks_for(event, step.1),
    {
        match (phase, event) {
            (CopyPhase::Receiving(tally), CopyEvent::Item(item)) => {
                if tally.boundary.is_some() {
                    return (
                        CopyPhase::Finished,
                        CopyAction::Fail(ReceiverError::ItemAfterBoundary),
                    );
                }
                let highest: Lsn = match tally.progress {
                    Some(lsn) => greater_lsn(lsn, item.lsn),
                    None => item.lsn,
                };
                if item.is_boundary {
                    let counted = CopyTally {
                        count: tally.count,
                        progress: Some(highest),
                        boundary: Some(item.lsn),
                    };
                    return (CopyPhase::Receiving(counted), CopyAction::Receive);
                }
                let counted = CopyTally {
                    count: tally.count,
                    progress: Some(highest),
                    boundary: None,
                };
                let operation = Operation { lsn: item.lsn, data: payload::from_vec(item.data) };
                (CopyPhase::Delivering(counted), CopyAction::Deliver(operation))
            },
            (CopyPhase::Receiving(_), CopyEvent::StreamFailed(reason)) => (
                CopyPhase::Finished,
                CopyAction::Fail(ReceiverError::StreamFailed(reason)),
            ),
            (CopyPhase::Receiving(tally), CopyEvent::StreamEnded) => {
                match tally.boundary {
                    None => (
                        CopyPhase::Finished,
                        CopyAction::Fail(ReceiverError::BoundaryMissing),
                    ),
                    Some(progress) => {
                        let exact = match tally.progress {
                            Some(highest) => highest == progress,
                            None => false,
                        };
                        if exact {
                            (
                                CopyPhase::Completing { count: tally.count, progress },
                                CopyAction::SendCompletion { lsn: progress },
                            )
                        } else {
                            (
                                CopyPhase::Finished,
                                CopyAction::Fail(ReceiverError::DataBeyondBoundary),
                            )
                        }
                    },
                }
            },
            (CopyPhase::Delivering(tally), CopyEvent::Delivered(true)) => (
                CopyPhase::Receiving(
                    CopyTally {
                        count: tally.count + 1,
                        progress: tally.progress,
                        boundary: tally.boundary,
                    },
                ),
                CopyAction::Receive,
            ),
            (CopyPhase::Completing { count, progress }, CopyEvent::CompletionSent(true)) => (
                CopyPhase::AwaitingCompletion { count, progress },
                CopyAction::AwaitCompletion,
            ),
            (
                CopyPhase::AwaitingCompletion { count, progress },
                CopyEvent::CompletionDone(true),
            ) => {
                self.publish(progress, progress);
                (CopyPhase::Finished, CopyAction::Respond { items_received: count })
            },
            (CopyPhase::AwaitingCompletion { .. }, _) => (
                CopyPhase::Finished,
                CopyAction::Fail(ReceiverError::CopyNotCompleted),
            ),
            _ => (CopyPhase::Finished, CopyAction::Fail(ReceiverError::CopyReceiverClosed)),
        }
    }

    /// Whether a copy-context request goes to a state provider.
    pub fn asks_provider(&self) -> (asks: bool)
        ensures
            asks == self@.has_provider,
    {
        self.has_provider
    }

    /// Answers a copy-context request: with the operations of the state provider,
    /// or with none where there is no provider (volatile mode).
    pub fn get_copy_context(&self, reply: ProviderReply) -> (answer: Result<
        Vec<RawOperation>,
        ReceiverError,
    >)
        ensures
            self@.answers_context(reply, answer),
    {
        if !self.has_provider {
            return Ok(Vec::new());
        }
        match reply {
            ProviderReply::Closed => Err(ReceiverError::ProviderClosed),
            ProviderReply::Dropped => Err(ReceiverError::ProviderReplyDropped),
            ProviderReply::Failed(reason) => Err(ReceiverError::ProviderFailed(reason)),
            ProviderReply::Operations(operations) => {
                let mut sent: Vec<RawOperation> = Vec::new();
                let mut i: usize = 0;
                while i < operations.len()
                    invariant
                        i <= operations@.len(),
                        is_wire_form(operations@.take(i as int), sent@),
                    decreases operations@.len() - i,
                {
                    let operation = &operations[i];
                    sent.push(
                        RawOperation { lsn: operation.lsn, data: payload::to_vec(&operation.data) },
                    );
                    i += 1;
                }
                assert(operations@.take(i as int) =~= operations@);
                Ok(sent)
            },
        }
    }
}

} // verus!
