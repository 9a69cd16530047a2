//! The ways in which connecting and reading can fail.

use vstd::prelude::*;

verus! {

/// The step of a read cycle at which the connection failed.
#[derive(Clone, Copy, Debug, PartialEq, Eq, Structural)]
pub enum Operation {
    /// Sending the queued outbound messages.
    Flush,
    /// Announcing the intent to read from the socket.
    PrepareRead,
    /// Reading from the socket.
    Read,
    /// Handing the read events to their handlers.
    DispatchPending,
}

impl Operation {
    /// The words that open the message of a failure at this step.
    pub open spec fn prefix(self) -> Seq<char> {
        match self {
            Operation::Flush => "Flush failed: "@,
            Operation::PrepareRead => "Prepare read failed: "@,
            Operation::Read => "Read failed: "@,
            Operation::DispatchPending => "Dispatch pending failed: "@,
        }
    }

    /// The words that open the message of a failure at this step.
    pub fn prefix_text(&self) -> (text: &'static str)
        ensures
            text@ == self.prefix(),
    {
        match self {
            Operation::Flush => "Flush failed: ",
            Operation::PrepareRead => "Prepare read failed: ",
            Operation::Read => "Read failed: ",
            Operation::DispatchPending => "Dispatch pending failed: ",
        }
    }
}

/// Why a backend could not be brought up. Each of these is final: the
/// handshake is never tried again.
#[derive(Clone, Debug, PartialEq, Eq)]
pub enum ConnectError {
    /// The display server could not be reached.
    ServerUnreachable,
    /// The server lacks the seat or the data-control manager.
    CapabilityMissing,
    /// The first round of dispatch failed.
    InitialDispatchFailed { cause: String },
    /// A synchronisation round-trip failed while waiting for the seat's name.
    RoundtripFailed,
}

/// A `ConnectError` with its text as a sequence of characters.
pub enum ConnectErrorModel {
    ServerUnreachable,
    CapabilityMissing,
    InitialDispatchFailed { cause: Seq<char> },
    RoundtripFailed,
}

impl ConnectErrorModel {
    /// The message that describes the error.
    pub open spec fn message(self) -> Seq<char> {
        match self {
            ConnectErrorModel::ServerUnreachable => {
                "Cannot connect to wayland server, is it running?"@
            },
            ConnectErrorModel::CapabilityMissing => "Cannot get seat and data manager"@,
            ConnectErrorModel::InitialDispatchFailed { cause } => {
                "Inital dispatch failed: "@ + cause
            },
            ConnectErrorModel::RoundtripFailed => "Cannot roundtrip during init"@,
        }
    }
}

impl View for ConnectError {
    type V = ConnectErrorModel;

    open spec fn view(&self) -> ConnectErrorModel {
        match self {
            ConnectError::ServerUnreachable => ConnectErrorModel::ServerUnreachable,
            ConnectError::CapabilityMissing => ConnectErrorModel::CapabilityMissing,
            ConnectError::InitialDispatchFailed { cause } => {
                ConnectErrorModel::InitialDispatchFailed { cause: cause@ }
            },
            ConnectError::RoundtripFailed => ConnectErrorModel::RoundtripFailed,
        }
    }
}

impl ConnectError {
    /// The message that describes the error.
    pub fn message(&self) -> (text: String)
        ensures
            text@ == self@.message(),
    {
        match self {
            ConnectError::ServerUnreachable => {
                String::from_str("Cannot connect to wayland server, is it running?")
            },
            ConnectError::CapabilityMissing => String::from_str("Cannot get seat and data manager"),
            ConnectError::InitialDispatchFailed { cause } => {
                String::from_str("Inital dispatch failed: ").concat(cause.as_str())
            },
            ConnectError::RoundtripFailed => String::from_str("Cannot roundtrip during init"),
        }
    }
}

/// Why a call for the next change ended without one.
#[derive(Clone, Debug, PartialEq, Eq)]
pub enum ReadError {
    /// Shutdown was requested.
    Cancelled,
    /// The connection failed at the named step; `cause` is what the
    /// connection reported.
    ProtocolError { operation: Operation, cause: String },
}

/// A `ReadError` with its text as a sequence of characters.
pub enum ReadErrorModel {
    Cancelled,
    ProtocolError { operation: Operation, cause: Seq<char> },
}

impl ReadErrorModel {
    /// The message that describes the error.
    pub open spec fn message(self) -> Seq<char> {
        match self {
            ReadErrorModel::Cancelled => "Exit signal received, exiting"@,
            ReadErrorModel::ProtocolError { operation, cause } => operation.prefix() + cause,
        }
    }
}

impl View for ReadError {
    type V = ReadErrorModel;

    open spec fn view(&self) -> ReadErrorModel {
        match self {
            ReadError::Cancelled => ReadErrorModel::Cancelled,
            ReadError::ProtocolError { operation, cause } => ReadErrorModel::ProtocolError {
                operation: *operation,
                cause: cause@,
            },
        }
    }
}

impl ReadError {
    /// Whether the error reports a requested shutdown.
    pub fn is_cancelled(&self) -> (cancelled: bool)
        ensures
            cancelled == (self@ is Cancelled),
    {
        match self {
            ReadError::Cancelled => true,
            ReadError::ProtocolError { .. } => false,
        }
    }

    /// The message that describes the error.
    pub fn message(&self) -> (text: String)
        ensures
            text@ == self@.message(),
    {
        match self {
            ReadError::Cancelled => String::from_str("Exit signal received, exiting"),
            ReadError::ProtocolError { operation, cause } => {
                String::from_str(operation.prefix_text()).concat(cause.as_str())
            },
        }
    }
}

} // verus!
