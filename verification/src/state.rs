//! The protocol client's state and its reaction to events.

use vstd::prelude::*;
use crate::event::{texts, ClipboardChangeEvent};
use crate::interfaces::{is_manager_interface, is_seat_interface};
use crate::model::{
    adverts, lemma_events_keep_well_formed, lemma_without_offer_empty, lemma_without_offer_push,
    mime_types, without_offer, ClientModel,
};
use crate::protocol::{
    DeviceBinding, DeviceEvent, GlobalRef, OfferEvent, OfferedFormat, ProtocolEvent,
    RegistryEvent, Request, SeatEvent, SourceEvent,
};

verus! {

/// The state of one protocol client: what it has discovered and bound, and
/// the clipboard change that is arriving.
#[derive(Debug)]
pub struct ConnectionState {
    seat: Option<GlobalRef>,
    seat_name: Option<String>,
    manager: Option<GlobalRef>,
    device: Option<DeviceBinding>,
    formats: Vec<OfferedFormat>,
    change_completed: bool,
}

impl View for ConnectionState {
    type V = ClientModel;

    closed spec fn view(&self) -> ClientModel {
        ClientModel {
            seat: self.seat,
            seat_name: match self.seat_name {
                Some(name) => Some(name@),
                None => None,
            },
            manager: self.manager,
            device: self.device,
            formats: adverts(self.formats@),
            change_completed: self.change_completed,
        }
    }
}

impl ConnectionState {
    /// A client that has seen no event yet.
    pub fn new() -> (state: ConnectionState)
        ensures
            state@ == ClientModel::initial(),
            state@.well_formed(),
    {
        let state = ConnectionState {
            seat: None,
            seat_name: None,
            manager: None,
            device: None,
            formats: Vec::new(),
            change_completed: false,
        };
        assert(adverts(state.formats@) =~= Seq::empty());
        state
    }

    /// Whether both capabilities that a device is made from are known.
    pub fn device_ready(&self) -> (ready: bool)
        ensures
            ready == self@.device_ready(),
    {
        self.seat.is_some() && self.manager.is_some()
    }

    /// The seat capability, once the registry announced it.
    pub fn seat(&self) -> (seat: Option<GlobalRef>)
        ensures
            seat == self@.seat,
    {
        self.seat
    }

    /// The data-control manager capability, once the registry announced it.
    pub fn manager(&self) -> (manager: Option<GlobalRef>)
        ensures
            manager == self@.manager,
    {
        self.manager
    }

    /// What the clipboard-control device was made from, once it is bound.
    pub fn device(&self) -> (device: Option<DeviceBinding>)
        ensures
            device == self@.device,
    {
        self.device
    }

    /// The seat's human-readable name, once the seat told it.
    pub fn seat_name(&self) -> (name: Option<&String>)
        ensures
            name is Some <==> self@.seat_name is Some,
            name matches Some(text) ==> text@ == self@.seat_name->0,
    {
        self.seat_name.as_ref()
    }

    /// The formats advertised since the last change was handed out, each
    /// with the offer that advertised it.
    pub fn pending_formats(&self) -> (formats: &Vec<OfferedFormat>)
        ensures
            adverts(formats@) == self@.formats,
    {
        &self.formats
    }

    /// Whether a change has arrived that was not handed out yet.
    pub fn has_completed_change(&self) -> (completed: bool)
        ensures
            completed == self@.change_completed,
    {
        self.change_completed
    }

    /// Whether the seat has told its name.
    pub fn has_seat_name(&self) -> (known: bool)
        ensures
            known == (self@.seat_name is Some),
    {
        self.seat_name.is_some()
    }

    /// Binds the clipboard-control device to the discovered seat and manager
    /// and returns what it was made from. While either is missing, nothing
    /// is bound and nothing changes.
    pub fn bind_device(&mut self) -> (binding: Option<DeviceBinding>)
        ensures
            final(self)@ == old(self)@.with_device(),
            old(self)@.well_formed() ==> final(self)@.well_formed(),
            old(self)@.device_ready() ==> binding == final(self)@.device,
            !old(self)@.device_ready() ==> binding is None,
    {
        match (self.seat, self.manager) {
            (Some(seat), Some(manager)) => {
                let binding = DeviceBinding { seat, manager };
                self.device = Some(binding);
                Some(binding)
            },
            _ => None,
        }
    }

    /// Hands out the change that has arrived, if there is one: the formats
    /// recorded so far, in the order they arrived. The list is emptied and
    /// the mark cleared, so that no change is delivered twice.
    pub fn take_change(&mut self) -> (change: Option<ClipboardChangeEvent>)
        ensures
            old(self)@.change_completed ==> change is Some && change->0@ == mime_types(
                old(self)@.formats,
            ) && final(self)@ == old(self)@.drained(),
            !old(self)@.change_completed ==> change is None && final(self)@ == old(self)@,
            old(self)@.well_formed() ==> final(self)@.well_formed(),
    {
        if self.change_completed {
            let ghost before = *self;
            let mut formats: Vec<String> = Vec::new();
            let mut done: usize = 0;
            while done < self.formats.len()
                invariant
                    *self == before,
                    done <= self.formats.len(),
                    texts(formats@) == mime_types(adverts(self.formats@)).take(done as int),
                decreases self.formats.len() - done,
            {
                let ghost copied = formats@;
                let mime_type = self.formats[done].mime_type.clone();
                formats.push(mime_type);
                proof {
                    let all = mime_types(adverts(self.formats@));
                    assert(all[done as int] == mime_type@);
                    assert(texts(copied.push(mime_type)) =~= texts(copied).push(mime_type@));
                    assert(all.take(done + 1) =~= all.take(done as int).push(all[done as int]));
                }
                done = done + 1;
            }
            assert(mime_types(adverts(self.formats@)).take(done as int) =~= mime_types(
                adverts(self.formats@),
            ));
            self.formats.clear();
            self.change_completed = false;
            assert(adverts(self.formats@) =~= Seq::empty());
            Some(ClipboardChangeEvent { formats })
        } else {
            None
        }
    }

    /// Strikes the formats of the given offer from the list and keeps the
    /// others in their order.
    pub fn forget_offer(&mut self, offer: u32)
        ensures
            final(self)@ == old(self)@.forgetting(offer),
            old(self)@.well_formed() ==> final(self)@.well_formed(),
    {
        let ghost before = *self;
        let mut kept: Vec<OfferedFormat> = Vec::new();
        let mut done: usize = 0;
        proof {
            lemma_without_offer_empty(offer);
            assert(adverts(self.formats@).take(0) =~= Seq::empty());
            assert(adverts(kept@) =~= Seq::empty());
        }
        while done < self.formats.len()
            invariant
                *self == before,
                done <= self.formats.len(),
                adverts(kept@) == without_offer(adverts(self.formats@).take(done as int), offer),
            decreases self.formats.len() - done,
        {
            proof {
                let seen = adverts(self.formats@).take(done as int);
                assert(adverts(self.formats@).take(done + 1) =~= seen.push(
                    self.formats@[done as int]@,
                ));
                lemma_without_offer_push(seen, self.formats@[done as int]@, offer);
            }
            if self.formats[done].offer != offer {
                let format = OfferedFormat {
                    offer: self.formats[done].offer,
                    mime_type: self.formats[done].mime_type.clone(),
                };
                assert(adverts(kept@.push(format)) =~= adverts(kept@).push(format@));
                kept.push(format);
            }
            done = done + 1;
        }
        assert(adverts(self.formats@).take(done as int) =~= adverts(self.formats@));
        self.formats = kept;
    }

    /// Handles an event of the registry: binds the seat and the data-control
    /// manager when they are announced and passes over every other global.
    pub fn on_registry_event(&mut self, event: &RegistryEvent) -> (request: Request)
        ensures
            final(self)@ == old(self)@.after_registry(*event),
            old(self)@.well_formed() ==> final(self)@.well_formed(),
            request == ClientModel::registry_request(*event),
    {
        match event {
            RegistryEvent::Global { name, interface, version } => {
                let global = GlobalRef { name: *name, version: *version };
                if is_seat_interface(interface) {
                    self.seat = Some(global);
                    Request::BindSeat(global)
                } else if is_manager_interface(interface) {
                    self.manager = Some(global);
                    Request::BindManager(global)
                } else {
                    Request::Nothing
                }
            },
            RegistryEvent::Unused => Request::Nothing,
        }
    }

    /// Handles an event of the seat: records the seat's name.
    pub fn on_seat_event(&mut self, event: &SeatEvent) -> (request: Request)
        ensures
            final(self)@ == old(self)@.after_seat(*event),
            old(self)@.well_formed() ==> final(self)@.well_formed(),
            request == Request::Nothing,
    {
        match event {
            SeatEvent::Name { name } => {
                self.seat_name = Some(name.clone());
            },
            SeatEvent::Unused => {},
        }
        Request::Nothing
    }

    /// Handles an event of the data-control manager. The protocol defines
    /// none, so nothing changes.
    pub fn on_manager_event(&mut self) -> (request: Request)
        ensures
            final(self)@ == old(self)@,
            request == Request::Nothing,
    {
        Request::Nothing
    }

    /// Handles an event of the clipboard-control device.
    ///
    /// A selection that carries an offer marks a change as arrived. A defunct
    /// device is answered by re-arming it with a fresh source. An offer for
    /// the primary selection is destroyed, and the formats it advertised are
    /// struck from the list.
    pub fn on_device_event(&mut self, event: &DeviceEvent) -> (request: Request)
        ensures
            final(self)@ == old(self)@.after_device(*event),
            old(self)@.well_formed() ==> final(self)@.well_formed(),
            request == old(self)@.device_request(*event),
    {
        match event {
            DeviceEvent::DataOffer { id: _ } => Request::Nothing,
            DeviceEvent::Finished => {
                if self.manager.is_none() {
                    Request::Nothing
                } else if self.device.is_some() {
                    Request::ReplaceSelection
                } else {
                    Request::CreateSource
                }
            },
            DeviceEvent::PrimarySelection { offer } => {
                match offer {
                    Some(id) => {
                        self.forget_offer(*id);
                        Request::DestroyOffer { offer: *id }
                    },
                    None => Request::Nothing,
                }
            },
            DeviceEvent::Selection { offer } => {
                if offer.is_some() {
                    self.change_completed = true;
                }
                Request::Nothing
            },
            DeviceEvent::Unused => Request::Nothing,
        }
    }

    /// Handles an event of a data source the client created. The client
    /// never serves content, so every such event is passed over.
    pub fn on_source_event(&mut self, event: &SourceEvent) -> (request: Request)
        ensures
            final(self)@ == old(self)@,
            request == Request::Nothing,
    {
        Request::Nothing
    }

    /// Handles an event of an offer: records an advertised format together
    /// with the offer it belongs to.
    pub fn on_offer_event(&mut self, event: &OfferEvent) -> (request: Request)
        ensures
            final(self)@ == old(self)@.after_offer(*event),
            old(self)@.well_formed() ==> final(self)@.well_formed(),
            request == Request::Nothing,
    {
        match event {
            OfferEvent::Offer { offer, mime_type } => {
                let format = OfferedFormat { offer: *offer, mime_type: mime_type.clone() };
                assert(adverts(self.formats@.push(format)) =~= adverts(self.formats@).push(
                    format@,
                ));
                self.formats.push(format);
            },
            OfferEvent::Unused => {},
        }
        Request::Nothing
    }

    /// Handles one protocol event, routed by the kind of object it was sent
    /// to, and tells which request has to be sent in answer.
    pub fn handle_event(&mut self, event: &ProtocolEvent) -> (request: Request)
        ensures
            final(self)@ == old(self)@.after(*event),
            old(self)@.well_formed() ==> final(self)@.well_formed(),
            request == old(self)@.request_for(*event),
    {
        match event {
            ProtocolEvent::Registry(inner) => self.on_registry_event(inner),
            ProtocolEvent::Seat(inner) => self.on_seat_event(inner),
            ProtocolEvent::Manager => self.on_manager_event(),
            ProtocolEvent::Device(inner) => self.on_device_event(inner),
            ProtocolEvent::Source(inner) => self.on_source_event(inner),
            ProtocolEvent::Offer(inner) => self.on_offer_event(inner),
        }
    }

    /// Handles a batch of events in order and collects the request that
    /// answers each of them.
    pub fn dispatch(&mut self, events: &Vec<ProtocolEvent>) -> (requests: Vec<Request>)
        ensures
            final(self)@ == old(self)@.after_all(events@),
            old(self)@.well_formed() ==> final(self)@.well_formed(),
            requests@ == old(self)@.requests_for(events@),
    {
        let ghost start = self@;
        let mut requests: Vec<Request> = Vec::new();
        let mut done: usize = 0;
        assert(events@.take(0) =~= Seq::empty());
        while done < events.len()
            invariant
                done <= events.len(),
                self@ == start.after_all(events@.take(done as int)),
                requests@.len() == done,
                forall|i: int|
                    0 <= i < done ==> requests@[i] == start.after_all(
                        events@.take(i),
                    ).request_for(#[trigger] events@[i]),
            decreases events.len() - done,
        {
            let request = self.handle_event(&events[done]);
            requests.push(request);
            proof {
                let next = events@.take(done + 1);
                assert(next.drop_last() =~= events@.take(done as int));
                assert(next.last() == events@[done as int]);
            }
            done = done + 1;
        }
        assert(events@.take(done as int) =~= events@);
        proof {
            if start.well_formed() {
                lemma_events_keep_well_formed(start, events@);
            }
        }
        assert(requests@ =~= start.requests_for(events@));
        requests
    }
}

} // verus!
