//! The start-up handshake, cut into steps.
//!
//! The embedding program connects, lets the first round of events through,
//! and repeats synchronisation round-trips until the seat has told its name.
//! After each of these it reports how it went and is told what to do next.
//! While events are dispatched they reach the client's state through
//! `ConnectionState::handle_event`.

use vstd::prelude::*;
use wayland_client::DispatchError;
use crate::driver::describes_dispatch_error;
use crate::error::{ConnectError, ConnectErrorModel};
use crate::model::ClientModel;
use crate::protocol::DeviceBinding;
use crate::state::ConnectionState;

verus! {

/// What the embedding program reports back during the handshake.
#[derive(Clone, Debug, PartialEq, Eq)]
pub enum InitReport {
    /// Nothing has been done yet.
    Started,
    /// The connection is open and the registry was requested.
    Connected,
    /// The display server could not be reached.
    ConnectFailed,
    /// The first round of events has been handled.
    Dispatched,
    /// Handling the first round of events failed.
    DispatchFailed { cause: String },
    /// A synchronisation round-trip has completed.
    RoundtripDone,
    /// A synchronisation round-trip failed.
    RoundtripFailed,
}

/// What the embedding program has to do next during the handshake.
#[derive(Clone, Debug, PartialEq, Eq)]
pub enum InitAction {
    /// Open the connection and request the registry.
    Connect,
    /// Block until the first round of events has been handled.
    Dispatch,
    /// Perform one synchronisation round-trip.
    Roundtrip,
    /// Create the clipboard-control device from these capabilities; the
    /// backend is then ready to watch.
    Ready(DeviceBinding),
    /// Give up with this error.
    Fail(ConnectError),
}

/// An `InitAction` with its texts as sequences of characters.
pub enum InitActionModel {
    Connect,
    Dispatch,
    Roundtrip,
    Ready(DeviceBinding),
    Fail(ConnectErrorModel),
}

impl View for InitAction {
    type V = InitActionModel;

    open spec fn view(&self) -> InitActionModel {
        match self {
            InitAction::Connect => InitActionModel::Connect,
            InitAction::Dispatch => InitActionModel::Dispatch,
            InitAction::Roundtrip => InitActionModel::Roundtrip,
            InitAction::Ready(binding) => InitActionModel::Ready(*binding),
            InitAction::Fail(error) => InitActionModel::Fail(error@),
        }
    }
}

/// Whether a report says that a round of events has gone through, after
/// which the handshake looks at what the client has learned.
pub open spec fn completes_round(report: InitReport) -> bool {
    report is Dispatched || report is RoundtripDone
}

/// The action after a round of events: without both capabilities the
/// handshake fails; without the seat's name it synchronises once more;
/// with everything in hand it binds the device.
pub open spec fn settle(state: ClientModel) -> InitActionModel {
    if !state.device_ready() {
        InitActionModel::Fail(ConnectErrorModel::CapabilityMissing)
    } else if state.seat_name is None {
        InitActionModel::Roundtrip
    } else {
        InitActionModel::Ready(DeviceBinding { seat: state.seat->0, manager: state.manager->0 })
    }
}

/// The action that follows a report during the handshake.
pub open spec fn init_action(state: ClientModel, report: InitReport) -> InitActionModel {
    match report {
        InitReport::Started => InitActionModel::Connect,
        InitReport::Connected => InitActionModel::Dispatch,
        InitReport::ConnectFailed => InitActionModel::Fail(ConnectErrorModel::ServerUnreachable),
        InitReport::Dispatched => settle(state),
        InitReport::DispatchFailed { cause } => InitActionModel::Fail(
            ConnectErrorModel::InitialDispatchFailed { cause: cause@ },
        ),
        InitReport::RoundtripDone => settle(state),
        InitReport::RoundtripFailed => InitActionModel::Fail(ConnectErrorModel::RoundtripFailed),
    }
}

/// The client's state after a report during the handshake: the device is
/// bound in the step that finds both capabilities and the seat's name, and
/// in no other.
pub open spec fn init_state(state: ClientModel, report: InitReport) -> ClientModel {
    if completes_round(report) && state.seat_name is Some {
        state.with_device()
    } else {
        state
    }
}

/// Reports how the first round of dispatch went.
pub fn initial_dispatch_report(result: Result<usize, DispatchError>) -> (report: InitReport)
    ensures
        result is Ok ==> report is Dispatched,
        result matches Err(error) ==> (report matches InitReport::DispatchFailed { cause }
            && describes_dispatch_error(error, cause)),
{
    match result {
        Ok(_) => InitReport::Dispatched,
        Err(error) => InitReport::DispatchFailed { cause: error.to_string() },
    }
}

impl ConnectionState {
    /// Advances the handshake by one step.
    pub fn init_step(&mut self, report: InitReport) -> (action: InitAction)
        ensures
            action@ == init_action(old(self)@, report),
            final(self)@ == init_state(old(self)@, report),
            old(self)@.well_formed() ==> final(self)@.well_formed(),
    {
        match report {
            InitReport::Started => InitAction::Connect,
            InitReport::Connected => InitAction::Dispatch,
            InitReport::ConnectFailed => InitAction::Fail(ConnectError::ServerUnreachable),
            InitReport::Dispatched => self.settle(),
            InitReport::DispatchFailed { cause } => InitAction::Fail(
                ConnectError::InitialDispatchFailed { cause },
            ),
            InitReport::RoundtripDone => self.settle(),
            InitReport::RoundtripFailed => InitAction::Fail(ConnectError::RoundtripFailed),
        }
    }

    /// Decides how the handshake goes on after a round of events, and binds
    /// the device when nothing is missing any more.
    pub fn settle(&mut self) -> (action: InitAction)
        ensures
            action@ == settle(old(self)@),
            final(self)@ == (if old(self)@.seat_name is Some {
                old(self)@.with_device()
            } else {
                old(self)@
            }),
            old(self)@.well_formed() ==> final(self)@.well_formed(),
    {
        if !self.device_ready() {
            InitAction::Fail(ConnectError::CapabilityMissing)
        } else if !self.has_seat_name() {
            InitAction::Roundtrip
        } else {
            match self.bind_device() {
                Some(binding) => InitAction::Ready(binding),
                None => InitAction::Fail(ConnectError::CapabilityMissing),
            }
        }
    }
}

} // verus!
