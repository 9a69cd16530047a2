//! The mathematical model of the protocol client: its state as plain values
//! and the effect of every protocol event on it.

use vstd::prelude::*;
use crate::interfaces::{manager_interface, seat_interface};
use crate::protocol::{
    DeviceBinding, DeviceEvent, GlobalRef, OfferEvent, OfferedFormat, ProtocolEvent,
    RegistryEvent, Request, SeatEvent,
};

verus! {

/// One format as an offer advertised it.
pub struct Advertised {
    /// The id of the offer object.
    pub offer: u32,
    /// The format identifier.
    pub mime_type: Seq<char>,
}

impl View for OfferedFormat {
    type V = Advertised;

    open spec fn view(&self) -> Advertised {
        Advertised { offer: self.offer, mime_type: self.mime_type@ }
    }
}

/// What a list of recorded formats holds, in the same order.
pub open spec fn adverts(items: Seq<OfferedFormat>) -> Seq<Advertised> {
    items.map_values(|item: OfferedFormat| item@)
}

/// The format identifiers of a list of advertised formats, in the same order.
pub open spec fn mime_types(formats: Seq<Advertised>) -> Seq<Seq<char>> {
    formats.map_values(|format: Advertised| format.mime_type)
}

/// The test that keeps every advertised format but those of the given offer.
pub open spec fn not_of(offer: u32) -> spec_fn(Advertised) -> bool {
    |format: Advertised| format.offer != offer
}

/// The advertised formats without those of the given offer, order kept.
pub open spec fn without_offer(formats: Seq<Advertised>, offer: u32) -> Seq<Advertised> {
    formats.filter(not_of(offer))
}

/// The state of one protocol client.
pub struct ClientModel {
    /// The seat capability, once the registry announced it.
    pub seat: Option<GlobalRef>,
    /// The seat's human-readable name, once the seat told it.
    pub seat_name: Option<Seq<char>>,
    /// The data-control manager capability, once the registry announced it.
    pub manager: Option<GlobalRef>,
    /// The clipboard-control device, once it was bound.
    pub device: Option<DeviceBinding>,
    /// The formats advertised since the last change was handed out, each
    /// with the offer that advertised it, in the order they arrived. Those
    /// of an offer that turned out to be the primary selection are gone.
    pub formats: Seq<Advertised>,
    /// Whether a change has arrived that was not handed out yet.
    pub change_completed: bool,
}

impl ClientModel {
    /// The state of a client that has seen no event.
    pub open spec fn initial() -> ClientModel {
        ClientModel {
            seat: None,
            seat_name: None,
            manager: None,
            device: None,
            formats: Seq::empty(),
            change_completed: false,
        }
    }

    /// A device is bound only when both capabilities it is made from are known.
    pub open spec fn well_formed(self) -> bool {
        self.device is Some ==> self.seat is Some && self.manager is Some
    }

    /// Both capabilities that a device is made from are known.
    pub open spec fn device_ready(self) -> bool {
        self.seat is Some && self.manager is Some
    }

    /// The state after the clipboard-control device was bound: it is made
    /// from the seat and the manager when both are known, and not at all
    /// otherwise.
    pub open spec fn with_device(self) -> ClientModel {
        if self.device_ready() {
            ClientModel {
                device: Some(DeviceBinding { seat: self.seat->0, manager: self.manager->0 }),
                ..self
            }
        } else {
            self
        }
    }

    /// The state after the arrived change was handed out.
    pub open spec fn drained(self) -> ClientModel {
        ClientModel { formats: Seq::empty(), change_completed: false, ..self }
    }

    /// The state after a registry event: an announced seat or data-control
    /// manager is taken up, everything else is passed over.
    pub open spec fn after_registry(self, event: RegistryEvent) -> ClientModel {
        match event {
            RegistryEvent::Global { name, interface, version } => {
                if interface@ == seat_interface() {
                    ClientModel { seat: Some(GlobalRef { name, version }), ..self }
                } else if interface@ == manager_interface() {
                    ClientModel { manager: Some(GlobalRef { name, version }), ..self }
                } else {
                    self
                }
            },
            RegistryEvent::Unused => self,
        }
    }

    /// The state after a seat event: the name is recorded.
    pub open spec fn after_seat(self, event: SeatEvent) -> ClientModel {
        match event {
            SeatEvent::Name { name } => ClientModel { seat_name: Some(name@), ..self },
            SeatEvent::Unused => self,
        }
    }

    /// The state with the formats of the given offer struck from the list.
    pub open spec fn forgetting(self, offer: u32) -> ClientModel {
        ClientModel { formats: without_offer(self.formats, offer), ..self }
    }

    /// The state after a device event. A clipboard selection that carries an
    /// offer marks a change as arrived and leaves the format list alone. A
    /// primary selection that carries an offer strikes that offer's formats
    /// from the list. Nothing else leaves a trace.
    pub open spec fn after_device(self, event: DeviceEvent) -> ClientModel {
        match event {
            DeviceEvent::Selection { offer: Some(_) } => ClientModel {
                change_completed: true,
                ..self
            },
            DeviceEvent::PrimarySelection { offer: Some(id) } => self.forgetting(id),
            _ => self,
        }
    }

    /// The state after an offer event: an advertised format is appended,
    /// together with the offer it belongs to.
    pub open spec fn after_offer(self, event: OfferEvent) -> ClientModel {
        match event {
            OfferEvent::Offer { offer, mime_type } => ClientModel {
                formats: self.formats.push(Advertised { offer, mime_type: mime_type@ }),
                ..self
            },
            OfferEvent::Unused => self,
        }
    }

    /// The state after one event.
    pub open spec fn after(self, event: ProtocolEvent) -> ClientModel {
        match event {
            ProtocolEvent::Registry(inner) => self.after_registry(inner),
            ProtocolEvent::Seat(inner) => self.after_seat(inner),
            ProtocolEvent::Manager => self,
            ProtocolEvent::Device(inner) => self.after_device(inner),
            ProtocolEvent::Source(_) => self,
            ProtocolEvent::Offer(inner) => self.after_offer(inner),
        }
    }

    /// The state after a sequence of events, handled in order.
    pub open spec fn after_all(self, events: Seq<ProtocolEvent>) -> ClientModel
        decreases events.len(),
    {
        if events.len() == 0 {
            self
        } else {
            self.after_all(events.drop_last()).after(events.last())
        }
    }

    /// The request that answers a registry event.
    pub open spec fn registry_request(event: RegistryEvent) -> Request {
        match event {
            RegistryEvent::Global { name, interface, version } => {
                if interface@ == seat_interface() {
                    Request::BindSeat(GlobalRef { name, version })
                } else if interface@ == manager_interface() {
                    Request::BindManager(GlobalRef { name, version })
                } else {
                    Request::Nothing
                }
            },
            RegistryEvent::Unused => Request::Nothing,
        }
    }

    /// The request that answers a device event: a defunct device is re-armed
    /// with a fresh source as far as the needed objects exist, and an offer
    /// for the primary selection is destroyed.
    pub open spec fn device_request(self, event: DeviceEvent) -> Request {
        match event {
            DeviceEvent::Finished => {
                if self.manager is None {
                    Request::Nothing
                } else if self.device is Some {
                    Request::ReplaceSelection
                } else {
                    Request::CreateSource
                }
            },
            DeviceEvent::PrimarySelection { offer: Some(id) } => Request::DestroyOffer {
                offer: id,
            },
            _ => Request::Nothing,
        }
    }

    /// The request that answers one event, sent from the state before it.
    pub open spec fn request_for(self, event: ProtocolEvent) -> Request {
        match event {
            ProtocolEvent::Registry(inner) => Self::registry_request(inner),
            ProtocolEvent::Device(inner) => self.device_request(inner),
            _ => Request::Nothing,
        }
    }

    /// The requests that answer a sequence of events, one for each event.
    pub open spec fn requests_for(self, events: Seq<ProtocolEvent>) -> Seq<Request> {
        Seq::new(
            events.len(),
            |i: int| self.after_all(events.take(i)).request_for(events[i]),
        )
    }
}

/// A device is bound only once both capabilities are known, and no event
/// undoes that.
pub proof fn lemma_event_keeps_well_formed(state: ClientModel, event: ProtocolEvent)
    requires
        state.well_formed(),
    ensures
        state.after(event).well_formed(),
        state.device_ready() ==> state.after(event).device_ready(),
        state.after(event).device == state.device,
{
}

/// Whatever the events, the state stays well formed and a capability that
/// was known stays known.
pub proof fn lemma_events_keep_well_formed(state: ClientModel, events: Seq<ProtocolEvent>)
    requires
        state.well_formed(),
    ensures
        state.after_all(events).well_formed(),
        state.device_ready() ==> state.after_all(events).device_ready(),
        state.after_all(events).device == state.device,
    decreases events.len(),
{
    if events.len() > 0 {
        lemma_events_keep_well_formed(state, events.drop_last());
        lemma_event_keeps_well_formed(state.after_all(events.drop_last()), events.last());
    }
}

/// Striking an offer from the empty list leaves the empty list.
pub proof fn lemma_without_offer_empty(offer: u32)
    ensures
        without_offer(Seq::empty(), offer) == Seq::<Advertised>::empty(),
{
    reveal(Seq::filter);
}

/// Striking an offer from a list with one more format: the format stays
/// exactly when it belongs to another offer.
pub proof fn lemma_without_offer_push(formats: Seq<Advertised>, format: Advertised, offer: u32)
    ensures
        without_offer(formats.push(format), offer) == (if format.offer != offer {
            without_offer(formats, offer).push(format)
        } else {
            without_offer(formats, offer)
        }),
{
    reveal(Seq::filter);
    assert(formats.push(format).drop_last() =~= formats);
}

/// Striking two offers gives the same list in either order.
pub proof fn lemma_without_offer_commutes(formats: Seq<Advertised>, first: u32, second: u32)
    ensures
        without_offer(without_offer(formats, first), second) == without_offer(
            without_offer(formats, second),
            first,
        ),
    decreases formats.len(),
{
    if formats.len() == 0 {
        assert(formats =~= Seq::empty());
        lemma_without_offer_empty(first);
        lemma_without_offer_empty(second);
    } else {
        let earlier = formats.drop_last();
        let last = formats.last();
        assert(formats =~= earlier.push(last));
        lemma_without_offer_commutes(earlier, first, second);
        lemma_without_offer_push(earlier, last, first);
        lemma_without_offer_push(earlier, last, second);
        lemma_without_offer_push(without_offer(earlier, first), last, second);
        lemma_without_offer_push(without_offer(earlier, second), last, first);
    }
}

/// Handling one event is handling the sequence that holds just that event.
pub proof fn lemma_after_one(state: ClientModel, event: ProtocolEvent)
    ensures
        state.after_all(seq![event]) == state.after(event),
{
    let events = seq![event];
    assert(events.drop_last() =~= Seq::empty());
    assert(state.after_all(events.drop_last()) == state);
    assert(events.last() == event);
}

/// Handling two sequences one after the other is handling them joined.
pub proof fn lemma_after_joined(
    state: ClientModel,
    first: Seq<ProtocolEvent>,
    second: Seq<ProtocolEvent>,
)
    ensures
        state.after_all(first + second) == state.after_all(first).after_all(second),
    decreases second.len(),
{
    if second.len() == 0 {
        assert(first + second =~= first);
    } else {
        lemma_after_joined(state, first, second.drop_last());
        assert((first + second).drop_last() =~= first + second.drop_last());
        assert((first + second).last() == second.last());
    }
}

} // verus!
