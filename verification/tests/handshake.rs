use clipboard_master::error::ConnectError;
use clipboard_master::init::{initial_dispatch_report, InitAction, InitReport};
use clipboard_master::protocol::{
    DeviceBinding, GlobalRef, ProtocolEvent, RegistryEvent, SeatEvent,
};
use clipboard_master::state::ConnectionState;
use wayland_client::backend::WaylandError;
use wayland_client::DispatchError;

fn announce(state: &mut ConnectionState, name: u32, interface: &str, version: u32) {
    state.handle_event(&ProtocolEvent::Registry(RegistryEvent::Global {
        name,
        interface: interface.to_string(),
        version,
    }));
}

fn tell_name(state: &mut ConnectionState, name: &str) {
    state.handle_event(&ProtocolEvent::Seat(SeatEvent::Name { name: name.to_string() }));
}

#[test]
fn handshake_begins_by_connecting() {
    let mut state = ConnectionState::new();
    assert_eq!(state.init_step(InitReport::Started), InitAction::Connect);
    assert_eq!(state.init_step(InitReport::Connected), InitAction::Dispatch);
    assert_eq!(state.device(), None);
}

#[test]
fn unreachable_server_fails_the_handshake() {
    let mut state = ConnectionState::new();
    assert_eq!(
        state.init_step(InitReport::ConnectFailed),
        InitAction::Fail(ConnectError::ServerUnreachable)
    );
}

#[test]
fn failed_first_dispatch_fails_the_handshake() {
    let mut state = ConnectionState::new();
    let report = InitReport::DispatchFailed { cause: "broken pipe".to_string() };
    assert_eq!(
        state.init_step(report),
        InitAction::Fail(ConnectError::InitialDispatchFailed { cause: "broken pipe".to_string() })
    );
}

#[test]
fn missing_capabilities_fail_the_handshake() {
    let mut neither = ConnectionState::new();
    announce(&mut neither, 1, "wl_compositor", 4);
    assert_eq!(
        neither.init_step(InitReport::Dispatched),
        InitAction::Fail(ConnectError::CapabilityMissing)
    );

    let mut seat_only = ConnectionState::new();
    announce(&mut seat_only, 1, "wl_seat", 7);
    tell_name(&mut seat_only, "default");
    assert_eq!(
        seat_only.init_step(InitReport::Dispatched),
        InitAction::Fail(ConnectError::CapabilityMissing)
    );
    assert_eq!(seat_only.device(), None);

    let mut manager_only = ConnectionState::new();
    announce(&mut manager_only, 2, "zwlr_data_control_manager_v1", 2);
    assert_eq!(
        manager_only.init_step(InitReport::Dispatched),
        InitAction::Fail(ConnectError::CapabilityMissing)
    );
    assert_eq!(manager_only.device(), None);
}

#[test]
fn handshake_synchronises_until_the_seat_has_a_name() {
    let mut state = ConnectionState::new();
    announce(&mut state, 1, "wl_seat", 7);
    announce(&mut state, 2, "zwlr_data_control_manager_v1", 2);
    assert_eq!(state.init_step(InitReport::Dispatched), InitAction::Roundtrip);
    assert_eq!(state.device(), None);
    assert_eq!(state.init_step(InitReport::RoundtripDone), InitAction::Roundtrip);
    assert_eq!(state.device(), None);

    tell_name(&mut state, "default");
    let binding = DeviceBinding {
        seat: GlobalRef { name: 1, version: 7 },
        manager: GlobalRef { name: 2, version: 2 },
    };
    assert_eq!(state.init_step(InitReport::RoundtripDone), InitAction::Ready(binding));
    assert_eq!(state.device(), Some(binding));
}

#[test]
fn handshake_is_ready_at_once_when_the_name_came_first() {
    let mut state = ConnectionState::new();
    announce(&mut state, 5, "zwlr_data_control_manager_v1", 1);
    announce(&mut state, 6, "wl_seat", 9);
    tell_name(&mut state, "seat0");
    let binding = DeviceBinding {
        seat: GlobalRef { name: 6, version: 9 },
        manager: GlobalRef { name: 5, version: 1 },
    };
    assert_eq!(state.init_step(InitReport::Dispatched), InitAction::Ready(binding));
    assert_eq!(state.device(), Some(binding));
}

#[test]
fn failed_roundtrip_fails_the_handshake() {
    let mut state = ConnectionState::new();
    announce(&mut state, 1, "wl_seat", 7);
    announce(&mut state, 2, "zwlr_data_control_manager_v1", 2);
    assert_eq!(
        state.init_step(InitReport::RoundtripFailed),
        InitAction::Fail(ConnectError::RoundtripFailed)
    );
    assert_eq!(state.device(), None);
}

#[test]
fn settle_decides_from_what_is_known() {
    let mut state = ConnectionState::new();
    assert_eq!(state.settle(), InitAction::Fail(ConnectError::CapabilityMissing));
    announce(&mut state, 1, "wl_seat", 7);
    announce(&mut state, 2, "zwlr_data_control_manager_v1", 2);
    assert_eq!(state.settle(), InitAction::Roundtrip);
    tell_name(&mut state, "default");
    assert!(matches!(state.settle(), InitAction::Ready(_)));
}

#[test]
fn first_dispatch_result_becomes_a_report() {
    assert_eq!(initial_dispatch_report(Ok(3)), InitReport::Dispatched);
    assert_eq!(initial_dispatch_report(Ok(0)), InitReport::Dispatched);
    let failure = DispatchError::Backend(WaylandError::Io(std::io::Error::new(
        std::io::ErrorKind::BrokenPipe,
        "gone",
    )));
    assert_eq!(
        initial_dispatch_report(Err(failure)),
        InitReport::DispatchFailed { cause: "Backend error: Io error: gone".to_string() }
    );
}

#[test]
fn connect_error_messages() {
    assert_eq!(
        ConnectError::ServerUnreachable.message(),
        "Cannot connect to wayland server, is it running?"
    );
    assert_eq!(ConnectError::CapabilityMissing.message(), "Cannot get seat and data manager");
    assert_eq!(
        ConnectError::InitialDispatchFailed { cause: "boom".to_string() }.message(),
        "Inital dispatch failed: boom"
    );
    assert_eq!(ConnectError::RoundtripFailed.message(), "Cannot roundtrip during init");
}
