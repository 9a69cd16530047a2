//! What holds of the client whatever the compositor sends: theorems over the
//! model, each proved by Verus.

use vstd::prelude::*;
use crate::driver::{
    iteration_start, poll_action, poll_state, starts_iteration, PollActionModel, PollReport,
    ReadOutcome, POLL_INTERVAL_MILLIS,
};
use crate::error::{ConnectErrorModel, ReadErrorModel};
use crate::event::texts;
use crate::init::{init_action, init_state, InitActionModel, InitReport};
use crate::interfaces::{manager_interface, seat_interface};
use crate::model::{
    lemma_after_joined, lemma_after_one, lemma_events_keep_well_formed,
    lemma_without_offer_commutes, lemma_without_offer_empty, lemma_without_offer_push, mime_types,
    without_offer, Advertised, ClientModel,
};
use crate::protocol::{
    DeviceBinding, DeviceEvent, GlobalRef, OfferEvent, ProtocolEvent, RegistryEvent, Request,
};
use crate::shutdown::noted;

verus! {

/// Whether the event is the registry announcing an input seat.
pub open spec fn announces_seat(event: ProtocolEvent) -> bool {
    event matches ProtocolEvent::Registry(RegistryEvent::Global { interface, .. })
        && interface@ == seat_interface()
}

/// Whether the event is the registry announcing the data-control manager.
pub open spec fn announces_manager(event: ProtocolEvent) -> bool {
    event matches ProtocolEvent::Registry(RegistryEvent::Global { interface, .. })
        && interface@ == manager_interface()
}

/// The global that a registry announcement names.
pub open spec fn announced_global(event: ProtocolEvent) -> GlobalRef
    recommends
        event matches ProtocolEvent::Registry(RegistryEvent::Global { .. }),
{
    match event {
        ProtocolEvent::Registry(RegistryEvent::Global { name, version, .. }) => GlobalRef {
            name,
            version,
        },
        _ => GlobalRef { name: 0, version: 0 },
    }
}

/// Whether one of the events announces an input seat.
pub open spec fn seat_announced(events: Seq<ProtocolEvent>) -> bool {
    exists|i: int| 0 <= i < events.len() && announces_seat(#[trigger] events[i])
}

/// Whether one of the events announces the data-control manager.
pub open spec fn manager_announced(events: Seq<ProtocolEvent>) -> bool {
    exists|i: int| 0 <= i < events.len() && announces_manager(#[trigger] events[i])
}

/// The two interface names the client looks for are different texts, so no
/// announcement is taken for both.
pub proof fn lemma_interfaces_differ()
    ensures
        seat_interface() != manager_interface(),
{
    reveal_strlit("wl_seat");
    reveal_strlit("zwlr_data_control_manager_v1");
    assert(seat_interface().len() == 7);
    assert(manager_interface().len() == 28);
}

/// Binding the device, handing out a change, and every step of the handshake
/// and of the polling loop keep the state well formed.
pub proof fn lemma_steps_keep_well_formed(
    state: ClientModel,
    init_report: InitReport,
    poll_report: PollReport,
)
    requires
        state.well_formed(),
    ensures
        ClientModel::initial().well_formed(),
        state.with_device().well_formed(),
        state.drained().well_formed(),
        init_state(state, init_report).well_formed(),
        poll_state(state, poll_report).well_formed(),
{
}

/// Registry discovery. After any sequence of events the seat is known
/// exactly when it was known before or one of the events announced it, and
/// likewise the manager; nothing else makes a capability known.
pub proof fn lemma_discovery(state: ClientModel, events: Seq<ProtocolEvent>)
    ensures
        state.after_all(events).seat is Some <==> state.seat is Some || seat_announced(events),
        state.after_all(events).manager is Some <==> state.manager is Some || manager_announced(
            events,
        ),
    decreases events.len(),
{
    if events.len() > 0 {
        let earlier = events.drop_last();
        let last = events.last();
        lemma_discovery(state, earlier);
        lemma_interfaces_differ();
        let before = state.after_all(earlier);
        assert(before.after(last).seat is Some <==> before.seat is Some || announces_seat(last));
        assert(before.after(last).manager is Some <==> before.manager is Some
            || announces_manager(last));
        assert(seat_announced(events) <==> seat_announced(earlier) || announces_seat(last)) by {
            if seat_announced(earlier) {
                let i = choose|i: int|
                    0 <= i < earlier.len() && announces_seat(#[trigger] earlier[i]);
                assert(announces_seat(events[i]));
            }
            if announces_seat(last) {
                assert(announces_seat(events[events.len() - 1]));
            }
            if seat_announced(events) {
                let i = choose|i: int|
                    0 <= i < events.len() && announces_seat(#[trigger] events[i]);
                if i < earlier.len() {
                    assert(announces_seat(earlier[i]));
                }
            }
        }
        assert(manager_announced(events) <==> manager_announced(earlier) || announces_manager(
            last,
        )) by {
            if manager_announced(earlier) {
                let i = choose|i: int|
                    0 <= i < earlier.len() && announces_manager(#[trigger] earlier[i]);
                assert(announces_manager(events[i]));
            }
            if announces_manager(last) {
                assert(announces_manager(events[events.len() - 1]));
            }
            if manager_announced(events) {
                let i = choose|i: int|
                    0 <= i < events.len() && announces_manager(#[trigger] events[i]);
                if i < earlier.len() {
                    assert(announces_manager(earlier[i]));
                }
            }
        }
    }
}

/// The client binds exactly what carries one of the two expected interface
/// names. In any sequence of events, the answer to an event is a request to
/// bind the seat exactly when the event announces a seat, and a request to
/// bind the manager exactly when it announces the manager; the request names
/// the announced global. Every other registry event is answered by nothing
/// and leaves the state as it was.
pub proof fn lemma_binds_exactly_the_named_globals(
    state: ClientModel,
    events: Seq<ProtocolEvent>,
    i: int,
)
    requires
        0 <= i < events.len(),
    ensures
        announces_seat(events[i]) <==> state.requests_for(events)[i] is BindSeat,
        announces_manager(events[i]) <==> state.requests_for(events)[i] is BindManager,
        announces_seat(events[i]) ==> state.requests_for(events)[i] == Request::BindSeat(
            announced_global(events[i]),
        ),
        announces_manager(events[i]) ==> state.requests_for(events)[i] == Request::BindManager(
            announced_global(events[i]),
        ),
        events[i] is Registry && !announces_seat(events[i]) && !announces_manager(events[i]) ==> {
            &&& state.requests_for(events)[i] == Request::Nothing
            &&& state.after_all(events.take(i + 1)) == state.after_all(events.take(i))
        },
{
    lemma_interfaces_differ();
    assert(events.take(i + 1).drop_last() =~= events.take(i));
    assert(events.take(i + 1).last() == events[i]);
}

/// The handshake fails for want of a capability exactly when the seat or the
/// manager is unknown after a round of events.
pub proof fn lemma_capability_missing(state: ClientModel, report: InitReport)
    requires
        report is Dispatched || report is RoundtripDone,
    ensures
        init_action(state, report) == InitActionModel::Fail(ConnectErrorModel::CapabilityMissing)
            <==> state.seat is None || state.manager is None,
{
}

/// A client that starts from nothing fails the handshake for want of a
/// capability exactly when the first round of events did not announce both
/// the seat and the manager.
pub proof fn lemma_handshake_needs_both_capabilities(events: Seq<ProtocolEvent>)
    ensures
        init_action(ClientModel::initial().after_all(events), InitReport::Dispatched)
            == InitActionModel::Fail(ConnectErrorModel::CapabilityMissing) <==> !seat_announced(
            events,
        ) || !manager_announced(events),
{
    lemma_discovery(ClientModel::initial(), events);
}

/// When the handshake ends in readiness, the device is bound, and it is made
/// from the seat and the manager that the client knows.
pub proof fn lemma_ready_binds_device(
    state: ClientModel,
    report: InitReport,
    binding: DeviceBinding,
)
    requires
        init_action(state, report) == InitActionModel::Ready(binding),
    ensures
        state.seat == Some(binding.seat),
        state.manager == Some(binding.manager),
        state.seat_name is Some,
        init_state(state, report).device == Some(binding),
{
}

/// The events of the offer with the given id that advertises the given
/// formats, in order.
pub open spec fn offered(offer: u32, formats: Seq<String>) -> Seq<ProtocolEvent> {
    formats.map_values(
        |mime_type: String| ProtocolEvent::Offer(OfferEvent::Offer { offer, mime_type }),
    )
}

/// The given formats as the offer with the given id advertised them.
pub open spec fn advertised(offer: u32, formats: Seq<String>) -> Seq<Advertised> {
    formats.map_values(|mime_type: String| Advertised { offer, mime_type: mime_type@ })
}

/// A clipboard change as a compositor sends it: the offer is introduced, it
/// advertises its formats, and then the selection names it.
pub open spec fn change_of(offer: u32, formats: Seq<String>) -> Seq<ProtocolEvent> {
    seq![ProtocolEvent::Device(DeviceEvent::DataOffer { id: offer })] + offered(offer, formats)
        + seq![ProtocolEvent::Device(DeviceEvent::Selection { offer: Some(offer) })]
}

/// A clipboard selection followed by the formats that its offer advertises.
pub open spec fn selection_with(offer: u32, formats: Seq<String>) -> Seq<ProtocolEvent> {
    seq![ProtocolEvent::Device(DeviceEvent::Selection { offer: Some(offer) })] + offered(
        offer,
        formats,
    )
}

/// What an offer advertises is appended to the list, in the order offered,
/// and nothing else changes.
pub proof fn lemma_offer_is_recorded(state: ClientModel, offer: u32, formats: Seq<String>)
    ensures
        state.after_all(offered(offer, formats)) == (ClientModel {
            formats: state.formats + advertised(offer, formats),
            ..state
        }),
        mime_types(advertised(offer, formats)) == texts(formats),
    decreases formats.len(),
{
    let events = offered(offer, formats);
    assert(mime_types(advertised(offer, formats)) =~= texts(formats));
    if formats.len() == 0 {
        assert(state.formats + advertised(offer, formats) =~= state.formats);
    } else {
        let earlier = formats.drop_last();
        lemma_offer_is_recorded(state, offer, earlier);
        assert(events.drop_last() =~= offered(offer, earlier));
        assert(events.last() == ProtocolEvent::Offer(
            OfferEvent::Offer { offer, mime_type: formats.last() },
        ));
        assert(state.formats + advertised(offer, formats) =~= (state.formats + advertised(
            offer,
            earlier,
        )).push(Advertised { offer, mime_type: formats.last()@ }));
    }
}

/// After a change, in the order a compositor sends it or with the selection
/// first, the client holds what it held before followed by exactly the
/// formats of the offer, in the order offered, and has marked the change as
/// arrived. The selection itself leaves the list alone.
pub proof fn lemma_change_is_collected(state: ClientModel, offer: u32, formats: Seq<String>)
    ensures
        state.after_all(change_of(offer, formats)) == (ClientModel {
            formats: state.formats + advertised(offer, formats),
            change_completed: true,
            ..state
        }),
        state.after_all(selection_with(offer, formats)) == (ClientModel {
            formats: state.formats + advertised(offer, formats),
            change_completed: true,
            ..state
        }),
{
    let introduce = ProtocolEvent::Device(DeviceEvent::DataOffer { id: offer });
    let select = ProtocolEvent::Device(DeviceEvent::Selection { offer: Some(offer) });
    let marked = ClientModel { change_completed: true, ..state };
    lemma_after_one(state, introduce);
    lemma_after_one(state, select);
    lemma_offer_is_recorded(state, offer, formats);
    lemma_offer_is_recorded(marked, offer, formats);
    lemma_after_joined(state, seq![introduce], offered(offer, formats));
    lemma_after_joined(state, seq![introduce] + offered(offer, formats), seq![select]);
    lemma_after_one(state.after_all(offered(offer, formats)), select);
    lemma_after_joined(state, seq![select], offered(offer, formats));
}

/// A change that arrives while no formats are pending is delivered as
/// exactly the formats of its offer, in the order offered, duplicates kept.
/// The delivery clears the mark and empties the list, so the next change is
/// delivered in the same way.
pub proof fn lemma_change_is_delivered(
    state: ClientModel,
    offer: u32,
    formats: Seq<String>,
    cancelled: bool,
)
    requires
        state.formats.len() == 0,
    ensures
        poll_action(state.after_all(change_of(offer, formats)), PollReport::Dispatched, cancelled)
            == PollActionModel::Deliver(texts(formats)),
        poll_action(
            state.after_all(selection_with(offer, formats)),
            PollReport::Dispatched,
            cancelled,
        ) == PollActionModel::Deliver(texts(formats)),
        !poll_state(
            state.after_all(change_of(offer, formats)),
            PollReport::Dispatched,
        ).change_completed,
        poll_state(
            state.after_all(change_of(offer, formats)),
            PollReport::Dispatched,
        ).formats.len() == 0,
{
    lemma_change_is_collected(state, offer, formats);
    lemma_offer_is_recorded(state, offer, formats);
    assert(state.formats + advertised(offer, formats) =~= advertised(offer, formats));
}

/// A selection marks the change and touches nothing else; a selection that
/// carries no offer touches nothing at all.
pub proof fn lemma_selection_only_marks(state: ClientModel, offer: Option<u32>)
    ensures
        state.after(ProtocolEvent::Device(DeviceEvent::Selection { offer })) == (ClientModel {
            change_completed: state.change_completed || offer is Some,
            ..state
        }),
        state.request_for(ProtocolEvent::Device(DeviceEvent::Selection { offer }))
            == Request::Nothing,
{
}

/// No change is delivered twice: whatever the step, once dispatch has been
/// reported the mark is cleared, and a second report of dispatch with no
/// event in between delivers nothing.
pub proof fn lemma_change_is_delivered_once(state: ClientModel, cancelled: bool)
    ensures
        !poll_state(state, PollReport::Dispatched).change_completed,
        poll_action(poll_state(state, PollReport::Dispatched), PollReport::Dispatched, cancelled)
            == iteration_start(cancelled),
{
}

/// Once cancellation has been seen, every step that starts an iteration ends
/// the call with `Cancelled` and leaves the state untouched, so the next
/// call ends the same way, and the one after.
pub proof fn lemma_cancellation_ends_every_call(state: ClientModel, report: PollReport)
    requires
        starts_iteration(state, report),
    ensures
        poll_action(state, report, true) == PollActionModel::Fail(ReadErrorModel::Cancelled),
        poll_state(state, report) == state,
        starts_iteration(poll_state(state, report), PollReport::Entered),
{
}

/// Raising the flag again changes nothing. Once one reading found the flag
/// raised, cancellation is seen, and it stays seen whatever later readings
/// find; and noting the same reading twice is noting it once.
pub proof fn lemma_cancellation_is_noted_for_good(seen: bool, raised: bool)
    ensures
        noted(seen, true),
        noted(noted(seen, true), raised) == noted(seen, true),
        noted(noted(seen, raised), raised) == noted(seen, raised),
{
}

/// Only cancellation makes the loop report `Cancelled`: without it no step
/// does.
pub proof fn lemma_cancelled_only_on_cancellation(state: ClientModel, report: PollReport)
    ensures
        poll_action(state, report, false) != PollActionModel::Fail(ReadErrorModel::Cancelled),
{
}

/// A socket with nothing to read makes the loop sleep for the fixed interval
/// and for nothing longer: the step after the sleep starts an iteration, and
/// with cancellation seen it ends the call at once, before anything is sent
/// or read.
pub proof fn lemma_sleep_ends_in_cancellation_check(state: ClientModel, cancelled: bool)
    ensures
        poll_action(state, PollReport::Read(ReadOutcome::WouldBlock), cancelled)
            == (PollActionModel::Sleep { millis: POLL_INTERVAL_MILLIS }),
        poll_state(state, PollReport::Read(ReadOutcome::WouldBlock)) == state,
        starts_iteration(state, PollReport::Slept),
        poll_action(state, PollReport::Slept, true) == PollActionModel::Fail(
            ReadErrorModel::Cancelled,
        ),
{
}

/// Events that change no state can be struck from any sequence: if every
/// event that `keep` rejects leaves every state as it was, the client ends
/// in the same state with and without them.
pub proof fn lemma_idle_events_leave_no_trace(
    state: ClientModel,
    events: Seq<ProtocolEvent>,
    keep: spec_fn(ProtocolEvent) -> bool,
)
    requires
        forall|any: ClientModel, event: ProtocolEvent|
            !keep(event) ==> #[trigger] any.after(event) == any,
    ensures
        state.after_all(events) == state.after_all(events.filter(keep)),
    decreases events.len(),
{
    reveal(Seq::filter);
    if events.len() > 0 {
        let earlier = events.drop_last();
        let last = events.last();
        lemma_idle_events_leave_no_trace(state, earlier, keep);
        if keep(last) {
            let kept = earlier.filter(keep).push(last);
            assert(kept.drop_last() =~= earlier.filter(keep));
            assert(kept.last() == last);
        } else {
            assert(state.after_all(earlier).after(last) == state.after_all(earlier));
        }
    }
}

/// Whether the event tells that the device is defunct.
pub open spec fn is_finished(event: ProtocolEvent) -> bool {
    event == ProtocolEvent::Device(DeviceEvent::Finished)
}

/// Whether the event is the offer with the given id advertising a format.
pub open spec fn is_offered_on(event: ProtocolEvent, offer: u32) -> bool {
    event matches ProtocolEvent::Offer(OfferEvent::Offer { offer: id, .. }) && id == offer
}

/// The event that the primary selection changed to the given offer.
pub open spec fn primary_selection_of(offer: u32) -> ProtocolEvent {
    ProtocolEvent::Device(DeviceEvent::PrimarySelection { offer: Some(offer) })
}

/// The test that keeps every event but those of a defunct device.
pub open spec fn not_finished() -> spec_fn(ProtocolEvent) -> bool {
    |event: ProtocolEvent| !is_finished(event)
}

/// The test that keeps every event but the given offer's advertisements.
pub open spec fn not_offered_on(offer: u32) -> spec_fn(ProtocolEvent) -> bool {
    |event: ProtocolEvent| !is_offered_on(event, offer)
}

/// A defunct device is never surfaced. Wherever such events stand among
/// others, the client ends in the state it would have reached without them,
/// so the polling loop delivers and fails exactly as it would have. Each of
/// them is answered by re-arming: with a bound device in a well-formed state,
/// by a fresh source set as the selection.
pub proof fn lemma_finished_is_never_surfaced(
    state: ClientModel,
    events: Seq<ProtocolEvent>,
    report: PollReport,
    cancelled: bool,
)
    ensures
        state.after_all(events) == state.after_all(events.filter(not_finished())),
        poll_action(state.after_all(events), report, cancelled) == poll_action(
            state.after_all(events.filter(not_finished())),
            report,
            cancelled,
        ),
        forall|i: int|
            0 <= i < events.len() && is_finished(#[trigger] events[i]) && state.well_formed()
                && state.device is Some ==> state.requests_for(events)[i]
                == Request::ReplaceSelection,
{
    lemma_idle_events_leave_no_trace(state, events, not_finished());
    assert forall|i: int|
        0 <= i < events.len() && is_finished(#[trigger] events[i]) && state.well_formed()
            && state.device is Some implies state.requests_for(events)[i]
        == Request::ReplaceSelection by {
        lemma_events_keep_well_formed(state, events.take(i));
    }
}

/// Rounds that bring nothing but defunct-device events end no call and cost
/// no change: the state after them is the state before, and a change that
/// follows, sent as a compositor sends it while no formats are pending, is
/// delivered as exactly the formats of its offer.
pub proof fn lemma_change_after_finished_is_delivered(
    state: ClientModel,
    finished: Seq<ProtocolEvent>,
    offer: u32,
    formats: Seq<String>,
    cancelled: bool,
)
    requires
        forall|i: int| 0 <= i < finished.len() ==> is_finished(#[trigger] finished[i]),
        state.formats.len() == 0,
    ensures
        state.after_all(finished) == state,
        poll_action(
            state.after_all(finished + change_of(offer, formats)),
            PollReport::Dispatched,
            cancelled,
        ) == PollActionModel::Deliver(texts(formats)),
    decreases finished.len(),
{
    if finished.len() > 0 {
        let earlier = finished.drop_last();
        assert(forall|i: int| 0 <= i < earlier.len() ==> (#[trigger] earlier[i]) == finished[i]);
        lemma_change_after_finished_is_delivered(state, earlier, offer, formats, cancelled);
        assert(is_finished(finished[finished.len() - 1]));
    }
    lemma_after_joined(state, finished, change_of(offer, formats));
    lemma_change_is_delivered(state, offer, formats, cancelled);
}

/// Striking an offer's formats and handling an event that is not one of
/// that offer's advertisements can be done in either order; handling one of
/// its advertisements and then striking the offer is striking alone.
pub proof fn lemma_forgetting_passes_event(state: ClientModel, event: ProtocolEvent, offer: u32)
    ensures
        is_offered_on(event, offer) ==> state.after(event).forgetting(offer) == state.forgetting(
            offer,
        ),
        !is_offered_on(event, offer) ==> state.after(event).forgetting(offer) == state.forgetting(
            offer,
        ).after(event),
{
    match event {
        ProtocolEvent::Offer(OfferEvent::Offer { offer: id, mime_type }) => {
            let format = Advertised { offer: id, mime_type: mime_type@ };
            lemma_without_offer_push(state.formats, format, offer);
        },
        ProtocolEvent::Device(DeviceEvent::PrimarySelection { offer: Some(other) }) => {
            lemma_without_offer_commutes(state.formats, other, offer);
        },
        _ => {},
    }
}

/// Striking an offer's formats after a sequence of events gives the state
/// that the events without that offer's advertisements lead to when the
/// offer is struck first, and leaving those advertisements out beforehand
/// changes nothing more.
pub proof fn lemma_forgetting_passes_events(
    state: ClientModel,
    events: Seq<ProtocolEvent>,
    offer: u32,
)
    ensures
        state.after_all(events).forgetting(offer) == state.forgetting(offer).after_all(
            events.filter(not_offered_on(offer)),
        ),
        state.after_all(events.filter(not_offered_on(offer))).forgetting(offer)
            == state.forgetting(offer).after_all(events.filter(not_offered_on(offer))),
    decreases events.len(),
{
    reveal(Seq::filter);
    if events.len() > 0 {
        let earlier = events.drop_last();
        let last = events.last();
        let kept = earlier.filter(not_offered_on(offer));
        lemma_forgetting_passes_events(state, earlier, offer);
        lemma_forgetting_passes_event(state.after_all(earlier), last, offer);
        lemma_forgetting_passes_event(state.after_all(kept), last, offer);
        if !is_offered_on(last, offer) {
            assert(kept.push(last).drop_last() =~= kept);
            assert(kept.push(last).last() == last);
        }
    }
}

/// The primary selection never reaches the caller. When an offer arrives as
/// the primary selection, the client goes on exactly as if that offer had
/// never advertised anything: whatever came before and whatever comes after,
/// it reaches the state that the same events without the offer's
/// advertisements lead to, and so the polling loop delivers the same list.
/// The offer itself is destroyed.
pub proof fn lemma_primary_selection_is_not_tracked(
    state: ClientModel,
    before: Seq<ProtocolEvent>,
    offer: u32,
    after: Seq<ProtocolEvent>,
    report: PollReport,
    cancelled: bool,
)
    ensures
        state.after_all(before.push(primary_selection_of(offer)) + after) == state.after_all(
            before.filter(not_offered_on(offer)).push(primary_selection_of(offer)) + after,
        ),
        poll_action(
            state.after_all(before.push(primary_selection_of(offer)) + after),
            report,
            cancelled,
        ) == poll_action(
            state.after_all(
                before.filter(not_offered_on(offer)).push(primary_selection_of(offer)) + after,
            ),
            report,
            cancelled,
        ),
        state.after_all(before).request_for(primary_selection_of(offer))
            == (Request::DestroyOffer { offer }),
        state.after_all(seq![ProtocolEvent::Device(DeviceEvent::PrimarySelection { offer: None })])
            == state,
{
    let primary = primary_selection_of(offer);
    let kept = before.filter(not_offered_on(offer));
    lemma_forgetting_passes_events(state, before, offer);
    assert(before.push(primary).drop_last() =~= before);
    assert(kept.push(primary).drop_last() =~= kept);
    assert(state.after_all(before.push(primary)) == state.after_all(kept.push(primary)));
    lemma_after_joined(state, before.push(primary), after);
    lemma_after_joined(state, kept.push(primary), after);
    lemma_after_one(state, ProtocolEvent::Device(DeviceEvent::PrimarySelection { offer: None }));
}

/// A primary offer that arrives in one read with a clipboard change leaves
/// nothing behind: with no formats pending before, the primary offer's
/// formats, its selection, and then a clipboard change are delivered as
/// exactly the clipboard offer's formats.
pub proof fn lemma_primary_offer_does_not_reach_the_change(
    state: ClientModel,
    primary: u32,
    primary_formats: Seq<String>,
    offer: u32,
    formats: Seq<String>,
    cancelled: bool,
)
    requires
        state.formats.len() == 0,
    ensures
        poll_action(
            state.after_all(
                offered(primary, primary_formats).push(primary_selection_of(primary)) + change_of(
                    offer,
                    formats,
                ),
            ),
            PollReport::Dispatched,
            cancelled,
        ) == PollActionModel::Deliver(texts(formats)),
{
    let early = offered(primary, primary_formats);
    let event = primary_selection_of(primary);
    lemma_offer_is_recorded(state, primary, primary_formats);
    lemma_all_of_offer_are_struck(state.formats, primary, primary_formats);
    assert(early.push(event).drop_last() =~= early);
    let cleared = state.after_all(early.push(event));
    assert(cleared.formats.len() == 0);
    lemma_after_joined(state, early.push(event), change_of(offer, formats));
    lemma_change_is_delivered(cleared, offer, formats, cancelled);
}

/// Striking an offer leaves a list alone that holds nothing of that offer.
pub proof fn lemma_other_offers_stay(held: Seq<Advertised>, offer: u32)
    requires
        forall|i: int| 0 <= i < held.len() ==> (#[trigger] held[i]).offer != offer,
    ensures
        without_offer(held, offer) == held,
    decreases held.len(),
{
    if held.len() == 0 {
        assert(held =~= Seq::empty());
        lemma_without_offer_empty(offer);
    } else {
        let earlier = held.drop_last();
        assert(forall|i: int| 0 <= i < earlier.len() ==> (#[trigger] earlier[i]) == held[i]);
        lemma_other_offers_stay(earlier, offer);
        lemma_without_offer_push(earlier, held.last(), offer);
        assert(held =~= earlier.push(held.last()));
    }
}

/// Striking an offer removes everything it advertised: a list that holds
/// nothing of that offer, followed by formats that it advertised, is left as
/// the list it was.
pub proof fn lemma_all_of_offer_are_struck(
    held: Seq<Advertised>,
    offer: u32,
    formats: Seq<String>,
)
    requires
        forall|i: int| 0 <= i < held.len() ==> (#[trigger] held[i]).offer != offer,
    ensures
        without_offer(held + advertised(offer, formats), offer) == held,
    decreases formats.len(),
{
    if formats.len() == 0 {
        assert(held + advertised(offer, formats) =~= held);
        lemma_other_offers_stay(held, offer);
    } else {
        let earlier = formats.drop_last();
        let last = Advertised { offer, mime_type: formats.last()@ };
        lemma_all_of_offer_are_struck(held, offer, earlier);
        assert(held + advertised(offer, formats) =~= (held + advertised(offer, earlier)).push(
            last,
        ));
        lemma_without_offer_push(held + advertised(offer, earlier), last, offer);
    }
}

} // verus!
