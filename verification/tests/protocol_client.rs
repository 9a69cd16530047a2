use clipboard_master::interfaces::{is_manager_interface, is_seat_interface};
use clipboard_master::protocol::{
    DeviceBinding, DeviceEvent, GlobalRef, OfferEvent, OfferedFormat, ProtocolEvent,
    RegistryEvent, Request, SeatEvent, SourceEvent,
};
use clipboard_master::state::ConnectionState;

fn global(name: u32, interface: &str, version: u32) -> ProtocolEvent {
    ProtocolEvent::Registry(RegistryEvent::Global {
        name,
        interface: interface.to_string(),
        version,
    })
}

fn mime(offer: u32, text: &str) -> ProtocolEvent {
    ProtocolEvent::Offer(OfferEvent::Offer { offer, mime_type: text.to_string() })
}

fn introduce(offer: u32) -> ProtocolEvent {
    ProtocolEvent::Device(DeviceEvent::DataOffer { id: offer })
}

fn primary(offer: u32) -> ProtocolEvent {
    ProtocolEvent::Device(DeviceEvent::PrimarySelection { offer: Some(offer) })
}

fn recorded(offer: u32, text: &str) -> OfferedFormat {
    OfferedFormat { offer, mime_type: text.to_string() }
}

fn texts(items: &[&str]) -> Vec<String> {
    items.iter().map(|item| item.to_string()).collect()
}

fn selection(offer: u32) -> ProtocolEvent {
    ProtocolEvent::Device(DeviceEvent::Selection { offer: Some(offer) })
}

fn ready_state() -> ConnectionState {
    let mut state = ConnectionState::new();
    state.handle_event(&global(1, "wl_seat", 7));
    state.handle_event(&global(2, "zwlr_data_control_manager_v1", 2));
    state.handle_event(&ProtocolEvent::Seat(SeatEvent::Name { name: "default".to_string() }));
    state.bind_device();
    state
}

#[test]
fn interface_names_are_recognised() {
    assert!(is_seat_interface(&"wl_seat".to_string()));
    assert!(!is_seat_interface(&"wl_seat2".to_string()));
    assert!(!is_seat_interface(&"zwlr_data_control_manager_v1".to_string()));
    assert!(!is_seat_interface(&String::new()));
    assert!(is_manager_interface(&"zwlr_data_control_manager_v1".to_string()));
    assert!(!is_manager_interface(&"zwlr_data_control_device_v1".to_string()));
    assert!(!is_manager_interface(&"wl_seat".to_string()));
}

#[test]
fn new_state_knows_nothing() {
    let state = ConnectionState::new();
    assert_eq!(state.seat(), None);
    assert_eq!(state.manager(), None);
    assert_eq!(state.device(), None);
    assert_eq!(state.seat_name(), None);
    assert!(state.pending_formats().is_empty());
    assert!(!state.has_completed_change());
    assert!(!state.device_ready());
    assert!(!state.has_seat_name());
}

#[test]
fn registry_binds_seat_and_manager_and_nothing_else() {
    let mut state = ConnectionState::new();
    let events = vec![
        global(1, "wl_compositor", 5),
        global(2, "wl_seat", 7),
        global(3, "wl_shm", 1),
        global(4, "zwlr_data_control_manager_v1", 2),
        global(5, "wl_output", 4),
        ProtocolEvent::Registry(RegistryEvent::Unused),
    ];
    let requests = state.dispatch(&events);
    assert_eq!(
        requests,
        vec![
            Request::Nothing,
            Request::BindSeat(GlobalRef { name: 2, version: 7 }),
            Request::Nothing,
            Request::BindManager(GlobalRef { name: 4, version: 2 }),
            Request::Nothing,
            Request::Nothing,
        ]
    );
    assert_eq!(state.seat(), Some(GlobalRef { name: 2, version: 7 }));
    assert_eq!(state.manager(), Some(GlobalRef { name: 4, version: 2 }));
    assert!(state.device_ready());
    assert_eq!(state.device(), None);
}

#[test]
fn a_later_announcement_replaces_an_earlier_one() {
    let mut state = ConnectionState::new();
    state.handle_event(&global(2, "wl_seat", 7));
    let request = state.handle_event(&global(9, "wl_seat", 8));
    assert_eq!(request, Request::BindSeat(GlobalRef { name: 9, version: 8 }));
    assert_eq!(state.seat(), Some(GlobalRef { name: 9, version: 8 }));
}

#[test]
fn unknown_globals_leave_the_state_alone() {
    let mut state = ConnectionState::new();
    let request = state.handle_event(&global(1, "xdg_wm_base", 3));
    assert_eq!(request, Request::Nothing);
    assert_eq!(state.seat(), None);
    assert_eq!(state.manager(), None);
    assert!(!state.device_ready());
}

#[test]
fn seat_name_is_recorded() {
    let mut state = ConnectionState::new();
    assert_eq!(state.handle_event(&ProtocolEvent::Seat(SeatEvent::Unused)), Request::Nothing);
    assert!(!state.has_seat_name());
    let request =
        state.handle_event(&ProtocolEvent::Seat(SeatEvent::Name { name: "seat0".to_string() }));
    assert_eq!(request, Request::Nothing);
    assert!(state.has_seat_name());
    assert_eq!(state.seat_name(), Some(&"seat0".to_string()));
}

#[test]
fn device_is_bound_only_with_both_capabilities() {
    let mut state = ConnectionState::new();
    assert_eq!(state.bind_device(), None);
    assert_eq!(state.device(), None);

    state.handle_event(&global(1, "wl_seat", 7));
    assert_eq!(state.bind_device(), None);
    assert_eq!(state.device(), None);

    state.handle_event(&global(2, "zwlr_data_control_manager_v1", 2));
    let binding = DeviceBinding {
        seat: GlobalRef { name: 1, version: 7 },
        manager: GlobalRef { name: 2, version: 2 },
    };
    assert_eq!(state.bind_device(), Some(binding));
    assert_eq!(state.device(), Some(binding));
}

#[test]
fn manager_only_is_not_ready() {
    let mut state = ConnectionState::new();
    state.handle_event(&global(2, "zwlr_data_control_manager_v1", 2));
    assert!(!state.device_ready());
    assert_eq!(state.bind_device(), None);
}

#[test]
fn a_change_in_protocol_order_is_collected() {
    let mut state = ready_state();
    let requests = state.dispatch(&vec![
        introduce(11),
        mime(11, "text/plain;charset=utf-8"),
        mime(11, "text/plain"),
        mime(11, "text/plain"),
    ]);
    assert_eq!(requests, vec![Request::Nothing; 4]);
    assert!(!state.has_completed_change());
    assert_eq!(state.take_change(), None);

    assert_eq!(state.handle_event(&selection(11)), Request::Nothing);
    assert!(state.has_completed_change());
    assert_eq!(
        state.pending_formats(),
        &vec![
            recorded(11, "text/plain;charset=utf-8"),
            recorded(11, "text/plain"),
            recorded(11, "text/plain"),
        ]
    );
    let change = state.take_change().expect("a change has arrived");
    assert_eq!(change.formats, texts(&["text/plain;charset=utf-8", "text/plain", "text/plain"]));
    assert!(!state.has_completed_change());
    assert!(state.pending_formats().is_empty());
    assert_eq!(state.take_change(), None);
}

#[test]
fn selection_leaves_the_format_list_alone() {
    let mut state = ready_state();
    state.handle_event(&mime(11, "image/png"));
    state.handle_event(&mime(11, "image/bmp"));
    let before = state.pending_formats().clone();
    assert_eq!(state.handle_event(&selection(11)), Request::Nothing);
    assert_eq!(state.pending_formats(), &before);
    assert!(state.has_completed_change());
    assert_eq!(state.handle_event(&selection(11)), Request::Nothing);
    assert_eq!(state.pending_formats(), &before);
    assert!(state.has_completed_change());
}

#[test]
fn formats_that_follow_the_selection_are_collected_too() {
    let mut state = ready_state();
    state.handle_event(&selection(11));
    assert!(state.has_completed_change());
    assert!(state.pending_formats().is_empty());
    state.handle_event(&mime(11, "text/plain;charset=utf-8"));
    state.handle_event(&mime(11, "text/plain"));
    let change = state.take_change().expect("a change has arrived");
    assert_eq!(change.formats, texts(&["text/plain;charset=utf-8", "text/plain"]));
}

#[test]
fn selection_without_formats_is_an_empty_change() {
    let mut state = ready_state();
    state.handle_event(&introduce(11));
    state.handle_event(&selection(11));
    let change = state.take_change().expect("a change has arrived");
    assert!(change.formats.is_empty());
}

#[test]
fn a_second_change_holds_only_its_own_formats() {
    let mut state = ready_state();
    state.dispatch(&vec![introduce(11), mime(11, "text/plain"), selection(11)]);
    let first = state.take_change().expect("a change has arrived");
    assert_eq!(first.formats, texts(&["text/plain"]));

    state.dispatch(&vec![introduce(12), mime(12, "image/png"), selection(12)]);
    let second = state.take_change().expect("a change has arrived");
    assert_eq!(second.formats, texts(&["image/png"]));
    assert!(!state.has_completed_change());
}

#[test]
fn an_emptied_clipboard_is_no_change() {
    let mut state = ready_state();
    state.handle_event(&mime(3, "text/plain"));
    let request = state.handle_event(&ProtocolEvent::Device(DeviceEvent::Selection { offer: None }));
    assert_eq!(request, Request::Nothing);
    assert!(!state.has_completed_change());
    assert_eq!(state.pending_formats(), &vec![recorded(3, "text/plain")]);
    assert_eq!(state.take_change(), None);
}

#[test]
fn take_change_without_selection_gives_nothing() {
    let mut state = ready_state();
    state.handle_event(&mime(3, "text/plain"));
    assert_eq!(state.take_change(), None);
    assert_eq!(state.pending_formats(), &vec![recorded(3, "text/plain")]);
}

#[test]
fn finished_device_is_rearmed() {
    let mut state = ConnectionState::new();
    let finished = ProtocolEvent::Device(DeviceEvent::Finished);
    assert_eq!(state.handle_event(&finished), Request::Nothing);

    state.handle_event(&global(2, "zwlr_data_control_manager_v1", 2));
    assert_eq!(state.handle_event(&finished), Request::CreateSource);

    state.handle_event(&global(1, "wl_seat", 7));
    state.bind_device();
    assert_eq!(state.handle_event(&finished), Request::ReplaceSelection);
    assert!(!state.has_completed_change());
    assert!(state.pending_formats().is_empty());
    assert!(state.device().is_some());
}

#[test]
fn primary_selection_offer_is_destroyed_and_its_formats_forgotten() {
    let mut state = ready_state();
    state.dispatch(&vec![introduce(12), mime(12, "text/x-primary"), mime(12, "text/plain")]);
    assert_eq!(state.pending_formats().len(), 2);
    assert_eq!(state.handle_event(&primary(12)), Request::DestroyOffer { offer: 12 });
    assert!(state.pending_formats().is_empty());
    assert!(!state.has_completed_change());
    assert_eq!(state.take_change(), None);
}

#[test]
fn primary_offer_in_the_same_read_does_not_reach_the_change() {
    let mut state = ready_state();
    let requests = state.dispatch(&vec![
        introduce(12),
        mime(12, "text/x-primary"),
        primary(12),
        introduce(13),
        mime(13, "text/plain"),
        selection(13),
    ]);
    assert_eq!(
        requests,
        vec![
            Request::Nothing,
            Request::Nothing,
            Request::DestroyOffer { offer: 12 },
            Request::Nothing,
            Request::Nothing,
            Request::Nothing,
        ]
    );
    let change = state.take_change().expect("a change has arrived");
    assert_eq!(change.formats, texts(&["text/plain"]));
}

#[test]
fn primary_offer_interleaved_with_a_clipboard_offer_is_struck_alone() {
    let mut state = ready_state();
    state.dispatch(&vec![
        introduce(20),
        introduce(21),
        mime(20, "text/plain;charset=utf-8"),
        mime(21, "text/x-primary"),
        mime(20, "text/plain"),
        mime(21, "text/plain"),
        primary(21),
        ProtocolEvent::Device(DeviceEvent::PrimarySelection { offer: None }),
        selection(20),
    ]);
    assert_eq!(
        state.pending_formats(),
        &vec![recorded(20, "text/plain;charset=utf-8"), recorded(20, "text/plain")]
    );
    let change = state.take_change().expect("a change has arrived");
    assert_eq!(change.formats, texts(&["text/plain;charset=utf-8", "text/plain"]));
}

#[test]
fn forgetting_an_unknown_offer_changes_nothing() {
    let mut state = ready_state();
    state.handle_event(&mime(20, "text/plain"));
    state.forget_offer(99);
    assert_eq!(state.pending_formats(), &vec![recorded(20, "text/plain")]);
    state.forget_offer(20);
    assert!(state.pending_formats().is_empty());
    state.forget_offer(20);
    assert!(state.pending_formats().is_empty());
}

#[test]
fn primary_selection_alone_is_no_change() {
    let mut state = ready_state();
    assert_eq!(state.handle_event(&primary(5)), Request::DestroyOffer { offer: 5 });
    assert!(!state.has_completed_change());
    assert_eq!(state.take_change(), None);
}

#[test]
fn unused_events_are_passed_over() {
    let mut state = ready_state();
    let events = vec![
        ProtocolEvent::Manager,
        ProtocolEvent::Device(DeviceEvent::DataOffer { id: 4 }),
        ProtocolEvent::Device(DeviceEvent::Unused),
        ProtocolEvent::Source(SourceEvent::Send { mime_type: "text/plain".to_string() }),
        ProtocolEvent::Source(SourceEvent::Unused),
        ProtocolEvent::Offer(OfferEvent::Unused),
        ProtocolEvent::Seat(SeatEvent::Unused),
        ProtocolEvent::Registry(RegistryEvent::Unused),
    ];
    let requests = state.dispatch(&events);
    assert_eq!(requests, vec![Request::Nothing; 8]);
    assert!(!state.has_completed_change());
    assert!(state.pending_formats().is_empty());
    assert_eq!(state.seat_name(), Some(&"default".to_string()));
    assert_eq!(state.on_manager_event(), Request::Nothing);
}

#[test]
fn dispatch_of_nothing_changes_nothing() {
    let mut state = ready_state();
    let requests = state.dispatch(&Vec::new());
    assert!(requests.is_empty());
    assert!(state.device().is_some());
    assert!(!state.has_completed_change());
}

#[test]
fn handlers_by_object_kind_agree_with_handle_event() {
    let mut by_kind = ConnectionState::new();
    let mut routed = ConnectionState::new();
    let announce = RegistryEvent::Global {
        name: 3,
        interface: "wl_seat".to_string(),
        version: 1,
    };
    assert_eq!(
        by_kind.on_registry_event(&announce),
        routed.handle_event(&ProtocolEvent::Registry(announce.clone()))
    );
    let name = SeatEvent::Name { name: "seat0".to_string() };
    assert_eq!(by_kind.on_seat_event(&name), routed.handle_event(&ProtocolEvent::Seat(name.clone())));
    let chosen = DeviceEvent::Selection { offer: Some(1) };
    assert_eq!(by_kind.on_device_event(&chosen), routed.handle_event(&ProtocolEvent::Device(chosen)));
    let offered = OfferEvent::Offer { offer: 1, mime_type: "text/uri-list".to_string() };
    assert_eq!(
        by_kind.on_offer_event(&offered),
        routed.handle_event(&ProtocolEvent::Offer(offered.clone()))
    );
    let asked = SourceEvent::Send { mime_type: "text/uri-list".to_string() };
    assert_eq!(
        by_kind.on_source_event(&asked),
        routed.handle_event(&ProtocolEvent::Source(asked.clone()))
    );
    assert_eq!(by_kind.seat(), routed.seat());
    assert_eq!(by_kind.seat_name(), routed.seat_name());
    assert_eq!(by_kind.pending_formats(), routed.pending_formats());
    assert_eq!(by_kind.has_completed_change(), routed.has_completed_change());
}
