//! The protocol events the client reacts to and the requests it sends back.
//!
//! Events are tagged first by the kind of protocol object that received them
//! and then by the event itself. Object identities are the numeric ids the
//! protocol assigns; texts are carried as `String`.

use vstd::prelude::*;

verus! {

/// A global capability as the registry announced it: the numeric name under
/// which it can be bound and the version the compositor offers.
#[derive(Clone, Copy, Debug, PartialEq, Eq, Structural)]
pub struct GlobalRef {
    pub name: u32,
    pub version: u32,
}

/// The pair of capabilities a clipboard-control device was created from.
#[derive(Clone, Copy, Debug, PartialEq, Eq, Structural)]
pub struct DeviceBinding {
    pub seat: GlobalRef,
    pub manager: GlobalRef,
}

/// Events of the registry object.
#[derive(Clone, Debug, PartialEq, Eq)]
pub enum RegistryEvent {
    /// A global capability became available.
    Global { name: u32, interface: String, version: u32 },
    /// Any other registry event; the client has no use for it.
    Unused,
}

/// Events of the seat object.
#[derive(Clone, Debug, PartialEq, Eq)]
pub enum SeatEvent {
    /// The seat told its human-readable name.
    Name { name: String },
    /// Any other seat event; the client has no use for it.
    Unused,
}

/// Events of the clipboard-control device.
#[derive(Clone, Copy, Debug, PartialEq, Eq, Structural)]
pub enum DeviceEvent {
    /// A new offer object was introduced; its formats follow on the offer.
    DataOffer { id: u32 },
    /// The clipboard selection changed; `None` when the clipboard was emptied.
    Selection { offer: Option<u32> },
    /// The device is defunct and will deliver nothing more.
    Finished,
    /// The primary selection changed; `None` when it was emptied.
    PrimarySelection { offer: Option<u32> },
    /// Any other device event; the client has no use for it.
    Unused,
}

/// Events of a data source the client created itself.
#[derive(Clone, Debug, PartialEq, Eq)]
pub enum SourceEvent {
    /// Another client asks for the content in the given format.
    Send { mime_type: String },
    /// Any other source event; the client has no use for it.
    Unused,
}

/// Events of an offer object.
#[derive(Clone, Debug, PartialEq, Eq)]
pub enum OfferEvent {
    /// The offer with the given id advertises one more format.
    Offer { offer: u32, mime_type: String },
    /// Any other offer event; the client has no use for it.
    Unused,
}

/// One format identifier together with the offer that advertised it.
#[derive(Clone, Debug, PartialEq, Eq)]
pub struct OfferedFormat {
    pub offer: u32,
    pub mime_type: String,
}

/// One protocol event, tagged by the kind of object it was sent to.
#[derive(Clone, Debug, PartialEq, Eq)]
pub enum ProtocolEvent {
    Registry(RegistryEvent),
    Seat(SeatEvent),
    /// The data-control manager; the protocol defines no event for it.
    Manager,
    Device(DeviceEvent),
    Source(SourceEvent),
    Offer(OfferEvent),
}

/// What the client has to send in answer to an event.
#[derive(Clone, Copy, Debug, PartialEq, Eq, Structural)]
pub enum Request {
    /// Nothing is to be sent.
    Nothing,
    /// Bind the announced global as the input seat.
    BindSeat(GlobalRef),
    /// Bind the announced global as the data-control manager.
    BindManager(GlobalRef),
    /// Create a fresh, empty data source; there is no device to hand it to.
    CreateSource,
    /// Create a fresh, empty data source and set it as the device's selection.
    ReplaceSelection,
    /// Destroy the offer with the given id.
    DestroyOffer { offer: u32 },
}

} // verus!
