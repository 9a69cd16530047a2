//! The polling loop behind a blocking call for the next clipboard change,
//! cut into steps.
//!
//! The embedding program owns the socket. It performs one action at a time,
//! reports how it went, and is told what to do next. The loop checks for
//! cancellation at the start of every iteration, sends what is queued, reads
//! without blocking, and either dispatches what arrived, sleeps for a fixed
//! interval when nothing did, or gives up on a connection error.

use vstd::prelude::*;
use wayland_client::backend::WaylandError;
use wayland_client::DispatchError;
use crate::error::{Operation, ReadError, ReadErrorModel};
use crate::event::ClipboardChangeEvent;
use crate::model::{mime_types, ClientModel};
use crate::shutdown::CancellationLatch;
use crate::state::ConnectionState;

verus! {

/// How long the loop sleeps when the socket has nothing to read.
pub const POLL_INTERVAL_MILLIS: u64 = 100;

/// The connection error of the protocol library. It is carried, told apart
/// from a socket with nothing to read, and turned into its text.
#[verifier::external_type_specification]
#[verifier::external_body]
pub struct ExWaylandError(WaylandError);

/// The dispatch error of the protocol library. It is carried and turned into
/// its text.
#[verifier::external_type_specification]
#[verifier::external_body]
pub struct ExDispatchError(DispatchError);

/// What a non-blocking read of the socket came to.
#[derive(Clone, Debug, PartialEq, Eq)]
pub enum ReadOutcome {
    /// The read went through and took in this many events.
    Data { count: usize },
    /// The socket had nothing to read.
    WouldBlock,
    /// The connection failed.
    Failed { cause: String },
}

/// What the embedding program reports back to the loop.
#[derive(Clone, Debug, PartialEq, Eq)]
pub enum PollReport {
    /// The call for the next change has just begun.
    Entered,
    /// The queued outbound messages were sent.
    Flushed,
    /// Sending the queued outbound messages failed.
    FlushFailed { cause: String },
    /// The socket could not be made ready for reading.
    PrepareFailed { cause: String },
    /// The socket was read.
    Read(ReadOutcome),
    /// The events that were read have all been handled.
    Dispatched,
    /// Handling the events that were read failed.
    DispatchFailed { cause: String },
    /// The sleep is over.
    Slept,
}

/// What the embedding program has to do next.
#[derive(Clone, Debug, PartialEq, Eq)]
pub enum PollAction {
    /// Send the queued outbound messages.
    Flush,
    /// Read the socket without blocking.
    Read,
    /// Hand the events that were read to the client, one by one.
    Dispatch,
    /// Sleep for the given time.
    Sleep { millis: u64 },
    /// End the call with this change.
    Deliver(ClipboardChangeEvent),
    /// End the call with this error.
    Fail(ReadError),
}

/// A `PollAction` with its texts as sequences of characters.
pub enum PollActionModel {
    Flush,
    Read,
    Dispatch,
    Sleep { millis: u64 },
    Deliver(Seq<Seq<char>>),
    Fail(ReadErrorModel),
}

impl View for PollAction {
    type V = PollActionModel;

    open spec fn view(&self) -> PollActionModel {
        match self {
            PollAction::Flush => PollActionModel::Flush,
            PollAction::Read => PollActionModel::Read,
            PollAction::Dispatch => PollActionModel::Dispatch,
            PollAction::Sleep { millis } => PollActionModel::Sleep { millis: *millis },
            PollAction::Deliver(event) => PollActionModel::Deliver(event@),
            PollAction::Fail(error) => PollActionModel::Fail(error@),
        }
    }
}

/// Whether the report brings the loop to the start of an iteration, where it
/// looks at the cancellation flag: on entry, after a sleep, after a read
/// that took in nothing, and after a dispatch that completed no change.
pub open spec fn starts_iteration(state: ClientModel, report: PollReport) -> bool {
    match report {
        PollReport::Entered => true,
        PollReport::Slept => true,
        PollReport::Read(ReadOutcome::Data { count }) => count == 0,
        PollReport::Dispatched => !state.change_completed,
        _ => false,
    }
}

/// The action at the start of an iteration.
pub open spec fn iteration_start(cancelled: bool) -> PollActionModel {
    if cancelled {
        PollActionModel::Fail(ReadErrorModel::Cancelled)
    } else {
        PollActionModel::Flush
    }
}

/// The failure of the connection at the given step.
pub open spec fn protocol_failure(operation: Operation, cause: Seq<char>) -> PollActionModel {
    PollActionModel::Fail(ReadErrorModel::ProtocolError { operation, cause })
}

/// The action that follows a report. `cancelled` is whether cancellation has
/// been seen; it counts only where the report starts an iteration.
pub open spec fn poll_action(
    state: ClientModel,
    report: PollReport,
    cancelled: bool,
) -> PollActionModel {
    match report {
        PollReport::Entered => iteration_start(cancelled),
        PollReport::Slept => iteration_start(cancelled),
        PollReport::Flushed => PollActionModel::Read,
        PollReport::FlushFailed { cause } => protocol_failure(Operation::Flush, cause@),
        PollReport::PrepareFailed { cause } => protocol_failure(Operation::PrepareRead, cause@),
        PollReport::Read(ReadOutcome::Data { count }) => {
            if count > 0 {
                PollActionModel::Dispatch
            } else {
                iteration_start(cancelled)
            }
        },
        PollReport::Read(ReadOutcome::WouldBlock) => PollActionModel::Sleep {
            millis: POLL_INTERVAL_MILLIS,
        },
        PollReport::Read(ReadOutcome::Failed { cause }) => protocol_failure(
            Operation::Read,
            cause@,
        ),
        PollReport::Dispatched => {
            if state.change_completed {
                PollActionModel::Deliver(mime_types(state.formats))
            } else {
                iteration_start(cancelled)
            }
        },
        PollReport::DispatchFailed { cause } => protocol_failure(
            Operation::DispatchPending,
            cause@,
        ),
    }
}

/// The client's state after a report: a completed change is handed out once
/// dispatch is over, and nothing else touches the state.
pub open spec fn poll_state(state: ClientModel, report: PollReport) -> ClientModel {
    if report is Dispatched && state.change_completed {
        state.drained()
    } else {
        state
    }
}

/// Whether a connection error only says that the socket had nothing to read:
/// it is the `Io` variant of `WaylandError`, and `std::io::Error::kind` of
/// what it carries is `WouldBlock`.
pub uninterp spec fn would_block(error: WaylandError) -> bool;

/// Trusted: tells the two variants of `WaylandError` apart and, for `Io`,
/// asks `std::io::Error::kind` whether the error is `WouldBlock`. The answer
/// depends on the error alone, and `would_block` is the name for it.
#[verifier::external_body]
fn is_would_block(error: &WaylandError) -> (block: bool)
    ensures
        block == would_block(*error),
{
    matches!(error, WaylandError::Io(inner) if inner.kind() == std::io::ErrorKind::WouldBlock)
}

/// Whether `text` is what the connection error writes of itself through its
/// `Display`, the text that `to_string` hands out.
pub open spec fn describes_transport_error(error: WaylandError, text: String) -> bool {
    vstd::string::to_string_from_display_ensures::<WaylandError>(&error, text)
}

/// Whether `text` is what the dispatch error writes of itself through its
/// `Display`, the text that `to_string` hands out.
pub open spec fn describes_dispatch_error(error: DispatchError, text: String) -> bool {
    vstd::string::to_string_from_display_ensures::<DispatchError>(&error, text)
}

/// Reports how sending the queued outbound messages went.
pub fn flush_report(result: Result<(), WaylandError>) -> (report: PollReport)
    ensures
        result is Ok ==> report is Flushed,
        result matches Err(error) ==> (report matches PollReport::FlushFailed { cause }
            && describes_transport_error(error, cause)),
{
    match result {
        Ok(_) => PollReport::Flushed,
        Err(error) => PollReport::FlushFailed { cause: error.to_string() },
    }
}

/// Reports that the socket could not be made ready for reading; the cause
/// is the error's own text.
pub fn prepare_failure(error: WaylandError) -> (report: PollReport)
    ensures
        report matches PollReport::PrepareFailed { cause } && describes_transport_error(
            error,
            cause,
        ),
{
    PollReport::PrepareFailed { cause: error.to_string() }
}

/// Reports how a non-blocking read went. An error that only says the socket
/// had nothing to read is told apart from a failure of the connection.
pub fn read_report(result: Result<usize, WaylandError>) -> (report: PollReport)
    ensures
        result matches Ok(count) ==> report == PollReport::Read(ReadOutcome::Data { count }),
        result matches Err(error) ==> (report == PollReport::Read(ReadOutcome::WouldBlock)
            <==> would_block(error)),
        result matches Err(error) ==> !would_block(error) ==> (report matches PollReport::Read(
            ReadOutcome::Failed { cause },
        ) && describes_transport_error(error, cause)),
{
    match result {
        Ok(count) => PollReport::Read(ReadOutcome::Data { count }),
        Err(error) => {
            if is_would_block(&error) {
                PollReport::Read(ReadOutcome::WouldBlock)
            } else {
                PollReport::Read(ReadOutcome::Failed { cause: error.to_string() })
            }
        },
    }
}

/// Reports how handing the read events to the client went.
pub fn dispatch_report(result: Result<usize, DispatchError>) -> (report: PollReport)
    ensures
        result is Ok ==> report is Dispatched,
        result matches Err(error) ==> (report matches PollReport::DispatchFailed { cause }
            && describes_dispatch_error(error, cause)),
{
    match result {
        Ok(_) => PollReport::Dispatched,
        Err(error) => PollReport::DispatchFailed { cause: error.to_string() },
    }
}

impl ConnectionState {
    /// Whether the report brings the loop to the start of an iteration.
    pub fn starts_iteration(&self, report: &PollReport) -> (starts: bool)
        ensures
            starts == starts_iteration(self@, *report),
    {
        match report {
            PollReport::Entered => true,
            PollReport::Slept => true,
            PollReport::Read(ReadOutcome::Data { count }) => *count == 0,
            PollReport::Dispatched => !self.has_completed_change(),
            _ => false,
        }
    }

    /// Advances the loop by one step, given whether cancellation has been
    /// seen. A completed change is handed out exactly once: delivering it
    /// clears the mark.
    pub fn poll_step_with(&mut self, report: PollReport, cancelled: bool) -> (action: PollAction)
        ensures
            action@ == poll_action(old(self)@, report, cancelled),
            final(self)@ == poll_state(old(self)@, report),
            old(self)@.well_formed() ==> final(self)@.well_formed(),
    {
        match report {
            PollReport::Entered => begin_iteration(cancelled),
            PollReport::Slept => begin_iteration(cancelled),
            PollReport::Flushed => PollAction::Read,
            PollReport::FlushFailed { cause } => PollAction::Fail(
                ReadError::ProtocolError { operation: Operation::Flush, cause },
            ),
            PollReport::PrepareFailed { cause } => PollAction::Fail(
                ReadError::ProtocolError { operation: Operation::PrepareRead, cause },
            ),
            PollReport::Read(ReadOutcome::Data { count }) => {
                if count > 0 {
                    PollAction::Dispatch
                } else {
                    begin_iteration(cancelled)
                }
            },
            PollReport::Read(ReadOutcome::WouldBlock) => PollAction::Sleep {
                millis: POLL_INTERVAL_MILLIS,
            },
            PollReport::Read(ReadOutcome::Failed { cause }) => PollAction::Fail(
                ReadError::ProtocolError { operation: Operation::Read, cause },
            ),
            PollReport::Dispatched => {
                match self.take_change() {
                    Some(event) => PollAction::Deliver(event),
                    None => begin_iteration(cancelled),
                }
            },
            PollReport::DispatchFailed { cause } => PollAction::Fail(
                ReadError::ProtocolError { operation: Operation::DispatchPending, cause },
            ),
        }
    }

    /// Advances the loop by one step. Where the report starts an iteration,
    /// the cancellation flag is looked at first; elsewhere it is left alone.
    pub fn poll_step(&mut self, shutdown: &mut CancellationLatch, report: PollReport) -> (action:
        PollAction)
        ensures
            action@ == poll_action(old(self)@, report, final(shutdown).seen()),
            final(self)@ == poll_state(old(self)@, report),
            old(self)@.well_formed() ==> final(self)@.well_formed(),
            old(shutdown).seen() ==> final(shutdown).seen(),
            final(shutdown).flag() == old(shutdown).flag(),
            !starts_iteration(old(self)@, report) ==> final(shutdown).seen() == old(
                shutdown,
            ).seen(),
    {
        let cancelled = if self.starts_iteration(&report) {
            shutdown.observe()
        } else {
            shutdown.has_seen()
        };
        self.poll_step_with(report, cancelled)
    }
}

/// The action at the start of an iteration: give up when cancellation has
/// been seen, and send what is queued otherwise.
pub fn begin_iteration(cancelled: bool) -> (action: PollAction)
    ensures
        action@ == iteration_start(cancelled),
{
    if cancelled {
        PollAction::Fail(ReadError::Cancelled)
    } else {
        PollAction::Flush
    }
}

} // verus!
