//! Clipboard-change detection over the Wayland data-control protocol.
//!
//! The crate holds the decision logic of a clipboard watcher: how protocol
//! events change the client's state, which requests the client must send in
//! answer, how the start-up handshake proceeds, and how the polling loop of a
//! blocking "next change" call advances. Verus proves these decisions
//! against their contracts. What is believed and not proved is marked as
//! trusted where it stands: the two interface names, the test for a socket
//! with nothing to read, and the two error types of the protocol library.
//! The shared cancellation flag is a std atomic, of whose value no contract
//! speaks. Socket I/O, sleeping and the glue that feeds events in are left to
//! the embedding program.

pub mod driver;
pub mod error;
pub mod event;
pub mod init;
pub mod interfaces;
pub mod laws;
pub mod model;
pub mod protocol;
pub mod shutdown;
pub mod state;
pub mod watcher;
