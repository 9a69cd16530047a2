//! Names of the protocol interfaces the client looks for in the registry.

use vstd::prelude::*;
use wayland_client::protocol::wl_seat::WlSeat;
use wayland_client::Proxy;
use wayland_protocols_wlr::data_control::v1::client::zwlr_data_control_manager_v1::{
    ZwlrDataControlManagerV1,
};

verus! {

/// The interface name under which a compositor announces an input seat.
pub open spec fn seat_interface() -> Seq<char> {
    "wl_seat"@
}

/// The interface name under which a compositor announces the data-control
/// manager, the capability that grants access to the clipboard.
pub open spec fn manager_interface() -> Seq<char> {
    "zwlr_data_control_manager_v1"@
}

/// Trusted: `<WlSeat as Proxy>::interface()` hands out the interface
/// description generated from the core protocol, whose `name` field is the
/// text `wl_seat`.
#[verifier::external_body]
pub(crate) fn seat_interface_name() -> (name: &'static str)
    ensures
        name@ == seat_interface(),
{
    WlSeat::interface().name
}

/// Trusted: `<ZwlrDataControlManagerV1 as Proxy>::interface()` hands out the
/// interface description generated from the data-control protocol, whose
/// `name` field is the text `zwlr_data_control_manager_v1`.
#[verifier::external_body]
pub(crate) fn manager_interface_name() -> (name: &'static str)
    ensures
        name@ == manager_interface(),
{
    ZwlrDataControlManagerV1::interface().name
}

/// Whether a registry announcement names the input-seat interface.
pub fn is_seat_interface(interface: &String) -> (matches: bool)
    ensures
        matches == (interface@ == seat_interface()),
{
    let expected = seat_interface_name().to_owned();
    interface.eq(&expected)
}

/// Whether a registry announcement names the data-control manager interface.
pub fn is_manager_interface(interface: &String) -> (matches: bool)
    ensures
        matches == (interface@ == manager_interface()),
{
    let expected = manager_interface_name().to_owned();
    interface.eq(&expected)
}

} // verus!
