//! Listing the services of a device.
use vstd::prelude::*;

use std::sync::Arc;

use crate::connect::ConnectRequest;
use crate::error::{Error, ErrorView, fails_with};
use crate::event_handlers::OnDisconnectHandler;
use crate::handler::Handler;
use crate::models::{
    DiscoveredDevice, Service, ServiceRead, build_service_model, presents_services,
};
use crate::platform::Platform;

verus! {

/// How far the listing of the services of a device has come.
pub enum ListServicesOp<P: Platform> {
    /// Nothing has happened yet. The text is the address of the device.
    Requested(String),
    /// The device is connected: read its services.
    Reading(Arc<DiscoveredDevice<P>>),
    /// Ask the device with this address whether it is connected.
    Checking(String, Arc<DiscoveredDevice<P>>),
    /// Another device is connected: disconnect it.
    DisconnectingOther(String, Arc<DiscoveredDevice<P>>),
    /// Connect the device with this address, without a disconnect callback and with iBeacons
    /// allowed.
    Connecting(String, Arc<DiscoveredDevice<P>>),
    /// The device has been connected for this purpose: read its services.
    ReadingOnce(Arc<DiscoveredDevice<P>>),
    /// The services have been read, or could not be: disconnect the device.
    Disconnecting(Result<Vec<Service>, Error>),
    /// All is done.
    Finished(Result<Vec<Service>, Error>),
}

/// An answer to what a [`ListServicesOp`] asks for.
#[derive(Debug)]
pub enum ListServicesEvent {
    /// Begin.
    Proceed,
    /// Whether the device is connected.
    DeviceConnected(bool),
    /// The device was connected, or could not be.
    Connected(Result<(), Error>),
    /// The services were read, or could not be.
    Read(Result<Vec<ServiceRead>, String>),
    /// The device was disconnected, or could not be.
    Disconnected(Result<(), Error>),
}

/// `result` is what reading the services comes to.
pub open spec fn is_reading_result(
    read: Result<Vec<ServiceRead>, String>,
    result: Result<Vec<Service>, Error>,
) -> bool {
    match read {
        Ok(read) => result matches Ok(services) && presents_services(services@, read@),
        Err(message) => fails_with(result, ErrorView::Btleplug(message@)),
    }
}

/// The listing goes from `op` to `next` on `event`, in the state `handler`.
///
/// A device that is connected is only read, and stays connected. Any other device must be known.
/// If it says that it is connected, it too is only read. Otherwise it is connected for the purpose,
/// after the device of the connection has been disconnected, and disconnected again however the
/// reading went. A failure to disconnect ends nothing. An event that answers something else changes
/// nothing.
pub open spec fn list_services_goes<P: Platform>(
    handler: Handler<P>,
    op: ListServicesOp<P>,
    event: ListServicesEvent,
    next: ListServicesOp<P>,
) -> bool {
    match (op, event) {
        (ListServicesOp::Requested(address), ListServicesEvent::Proceed) => {
            if handler.connected_address() == Some(address@) {
                next == ListServicesOp::Reading(handler.connection->0.connected_dev)
            } else if !handler.known_devices@.contains_key(address@) {
                next matches ListServicesOp::Finished(result) && fails_with(
                    result,
                    ErrorView::UnknownPeripheral(address@),
                )
            } else {
                next == ListServicesOp::Checking(address, handler.known_devices@[address@])
            }
        },
        (ListServicesOp::Checking(address, device), ListServicesEvent::DeviceConnected(connected)) => {
            if connected {
                next == ListServicesOp::Reading(device)
            } else if handler.connection is Some {
                next == ListServicesOp::DisconnectingOther(address, device)
            } else {
                next == ListServicesOp::Connecting(address, device)
            }
        },
        (ListServicesOp::Reading(_), ListServicesEvent::Read(read)) => {
            next matches ListServicesOp::Finished(result) && is_reading_result(read, result)
        },
        (
            ListServicesOp::DisconnectingOther(address, device),
            ListServicesEvent::Disconnected(_),
        ) => next == ListServicesOp::Connecting(address, device),
        (
            ListServicesOp::Connecting(_, device),
            ListServicesEvent::Connected(result),
        ) => match result {
            Ok(()) => next == ListServicesOp::ReadingOnce(device),
            Err(error) => next == ListServicesOp::<P>::Finished(Err(error)),
        },
        (ListServicesOp::ReadingOnce(_), ListServicesEvent::Read(read)) => {
            next matches ListServicesOp::Disconnecting(result) && is_reading_result(read, result)
        },
        (ListServicesOp::Disconnecting(result), ListServicesEvent::Disconnected(_)) => next
            == ListServicesOp::<P>::Finished(result),
        _ => next == op,
    }
}

fn reading_result(read: Result<Vec<ServiceRead>, String>) -> (result: Result<Vec<Service>, Error>)
    ensures
        is_reading_result(read, result),
{
    match read {
        Ok(read) => Ok(build_service_model(&read)),
        Err(message) => Err(Error::Btleplug(message)),
    }
}

impl<P: Platform> ListServicesOp<P> {
    /// The request to connect the device, if it is time to: without a disconnect callback and with
    /// iBeacons allowed.
    pub fn connect_request(&self) -> (request: Option<ConnectRequest<P>>)
        ensures
            match *self {
                ListServicesOp::Connecting(address, _) => request matches Some(r) && {
                    &&& r.address@ == address@
                    &&& r.on_disconnect is NoHandler
                    &&& r.allow_ibeacons
                },
                _ => request is None,
            },
    {
        match self {
            ListServicesOp::Connecting(address, _) => Some(
                ConnectRequest {
                    address: address.clone(),
                    on_disconnect: OnDisconnectHandler::NoHandler,
                    allow_ibeacons: true,
                },
            ),
            _ => None,
        }
    }
}

impl<P: Platform> Handler<P> {
    /// Moves the listing of the services of a device on by one answer.
    pub fn discover_services(&self, op: ListServicesOp<P>, event: ListServicesEvent) -> (next:
        ListServicesOp<P>)
        ensures
            list_services_goes(*self, op, event, next),
    {
        match (op, event) {
            (ListServicesOp::Requested(address), ListServicesEvent::Proceed) => {
                if let Some(device) = self.get_connected_device() {
                    if self.is_connected_to(address.as_str()) {
                        return ListServicesOp::Reading(device);
                    }
                }
                match self.lookup_device(address.as_str()) {
                    Ok(device) => ListServicesOp::Checking(address, device),
                    Err(error) => ListServicesOp::Finished(Err(error)),
                }
            },
            (
                ListServicesOp::Checking(address, device),
                ListServicesEvent::DeviceConnected(connected),
            ) => {
                if connected {
                    ListServicesOp::Reading(device)
                } else if self.connection.is_some() {
                    ListServicesOp::DisconnectingOther(address, device)
                } else {
                    ListServicesOp::Connecting(address, device)
                }
            },
            (ListServicesOp::Reading(_), ListServicesEvent::Read(read)) => {
                ListServicesOp::Finished(reading_result(read))
            },
            (
                ListServicesOp::DisconnectingOther(address, device),
                ListServicesEvent::Disconnected(_),
            ) => ListServicesOp::Connecting(address, device),
            (
                ListServicesOp::Connecting(_, device),
                ListServicesEvent::Connected(result),
            ) => match result {
                Ok(()) => ListServicesOp::ReadingOnce(device),
                Err(error) => ListServicesOp::Finished(Err(error)),
            },
            (ListServicesOp::ReadingOnce(_), ListServicesEvent::Read(read)) => {
                ListServicesOp::Disconnecting(reading_result(read))
            },
            (ListServicesOp::Disconnecting(result), ListServicesEvent::Disconnected(_)) => {
                ListServicesOp::Finished(result)
            },
            (op, _) => op,
        }
    }
}

/// One step of listing the services of a device. Between two steps the handler may change in any
/// way.
#[verifier::reject_recursive_types(P)]
pub struct ListServicesStep<P: Platform> {
    pub handler: Handler<P>,
    pub op: ListServicesOp<P>,
    pub event: ListServicesEvent,
    pub next: ListServicesOp<P>,
}

impl<P: Platform> ListServicesStep<P> {
    /// The step is one that the listing can take.
    pub open spec fn goes(self) -> bool {
        list_services_goes(self.handler, self.op, self.event, self.next)
    }

    /// In this step the device was connected for the purpose.
    pub open spec fn connects(self) -> bool {
        self.op is Connecting && (self.event matches ListServicesEvent::Connected(Ok(_)))
    }

    /// In this step the device that was connected for the purpose was disconnected, as far as
    /// possible.
    pub open spec fn disconnects(self) -> bool {
        self.op is Disconnecting && self.event is Disconnected
    }

    /// In this step nothing stood in the way of connecting the device: there was no connection to
    /// another device, or that device was disconnected, as far as possible.
    pub open spec fn clears_the_way(self) -> bool {
        ||| self.op is Checking && self.handler.connection is None
        ||| self.op is DisconnectingOther && self.event is Disconnected
    }

    /// In this step the device said that it is not connected.
    pub open spec fn denies_connection(self) -> bool {
        self.op is Checking && self.event == ListServicesEvent::DeviceConnected(false)
    }

    /// In this step the services `services` were read, while they were asked for.
    pub open spec fn reads(self, services: Seq<Service>) -> bool {
        &&& self.op is Reading || self.op is ReadingOnce
        &&& self.event matches ListServicesEvent::Read(Ok(read)) && presents_services(
            services,
            read@,
        )
    }
}

/// `steps` are steps of listing the services of the device with this address, from the beginning.
pub open spec fn is_list_run<P: Platform>(address: String, steps: Seq<ListServicesStep<P>>) -> bool {
    &&& steps.len() > 0
    &&& steps[0].op == ListServicesOp::<P>::Requested(address)
    &&& forall|i: int| 0 <= i < steps.len() ==> #[trigger] steps[i].goes()
    &&& forall|i: int|
        #![trigger steps[i]]
        0 < i < steps.len() ==> steps[i].op == steps[i - 1].next
}

proof fn lemma_list_run_without_last_step<P: Platform>(
    address: String,
    steps: Seq<ListServicesStep<P>>,
)
    requires
        is_list_run(address, steps),
        steps.len() > 1,
    ensures
        is_list_run(address, steps.drop_last()),
        steps.last().op == steps.drop_last().last().next,
        forall|i: int| 0 <= i < steps.len() - 1 ==> #[trigger] steps[i] == steps.drop_last()[i],
{
    let init = steps.drop_last();
    assert forall|i: int| 0 <= i < init.len() implies #[trigger] init[i].goes() by {
        assert(steps[i].goes());
    }
    assert forall|i: int| #![trigger init[i]] 0 < i < init.len() implies init[i].op == init[i
        - 1].next by {
        assert(steps[i].op == steps[i - 1].next);
    }
    assert(steps[steps.len() - 1].op == steps[steps.len() - 2].next);
}

/// The connected device stays connected when its services are asked for: it is only read.
pub proof fn law_connected_device_stays_connected<P: Platform>(
    address: String,
    steps: Seq<ListServicesStep<P>>,
)
    requires
        is_list_run(address, steps),
        forall|i: int|
            0 <= i < steps.len() && #[trigger] steps[i].op is Requested
                ==> steps[i].handler.connected_address() == Some(address@),
    ensures
        forall|i: int|
            #![trigger steps[i]]
            0 <= i < steps.len() ==> steps[i].next is Requested || steps[i].next is Reading
                || steps[i].next is Finished,
        steps.last().next matches ListServicesOp::Requested(a) ==> a == address,
    decreases steps.len(),
{
    assert(steps[steps.len() - 1].goes());
    if steps.len() > 1 {
        lemma_list_run_without_last_step(address, steps);
        let init = steps.drop_last();
        assert forall|i: int| 0 <= i < init.len() && #[trigger] init[i].op is Requested implies
            init[i].handler.connected_address() == Some(address@) by {
            assert(steps[i].op is Requested);
        }
        law_connected_device_stays_connected(address, init);
    }
}

/// A device that does not deny that it is connected stays connected: the listing neither connects
/// nor disconnects anything.
pub proof fn law_device_that_says_so_stays_connected<P: Platform>(
    address: String,
    steps: Seq<ListServicesStep<P>>,
)
    requires
        is_list_run(address, steps),
        forall|i: int| 0 <= i < steps.len() ==> !(#[trigger] steps[i]).denies_connection(),
    ensures
        forall|i: int|
            #![trigger steps[i]]
            0 <= i < steps.len() ==> steps[i].next is Requested || steps[i].next is Checking
                || steps[i].next is Reading || steps[i].next is Finished,
    decreases steps.len(),
{
    assert(steps[steps.len() - 1].goes());
    assert(!steps[steps.len() - 1].denies_connection());
    if steps.len() > 1 {
        lemma_list_run_without_last_step(address, steps);
        let init = steps.drop_last();
        assert forall|i: int| 0 <= i < init.len() implies !(
        #[trigger] init[i]).denies_connection() by {
            assert(!steps[i].denies_connection());
        }
        law_device_that_says_so_stays_connected(address, init);
    }
}

/// A device that was connected to list its services is disconnected again before the listing
/// ends, however the reading went and whatever connection the handler holds.
pub proof fn law_temporary_connection_is_ended<P: Platform>(
    address: String,
    steps: Seq<ListServicesStep<P>>,
    i: int,
)
    requires
        is_list_run(address, steps),
        0 <= i < steps.len(),
        steps[i].connects(),
    ensures
        steps.last().next is ReadingOnce || steps.last().next is Disconnecting
            || steps.last().next is Finished,
        steps.last().next is Finished ==> exists|j: int|
            i < j < steps.len() && (#[trigger] steps[j]).disconnects(),
    decreases steps.len(),
{
    assert(steps[steps.len() - 1].goes());
    if i < steps.len() - 1 {
        lemma_list_run_without_last_step(address, steps);
        let init = steps.drop_last();
        assert(steps[i] == init[i]);
        law_temporary_connection_is_ended(address, init, i);
        if steps.last().next is Finished {
            if init.last().next is Finished {
                let j = choose|j: int| i < j < init.len() && (#[trigger] init[j]).disconnects();
                assert(steps[j].disconnects());
            } else {
                assert(steps[steps.len() - 1].disconnects());
            }
        }
    }
}

/// Before a device is connected to list its services, any other device has been disconnected, as
/// far as possible.
pub proof fn law_other_device_is_disconnected_first<P: Platform>(
    address: String,
    steps: Seq<ListServicesStep<P>>,
)
    requires
        is_list_run(address, steps),
        steps.last().next is Connecting,
    ensures
        exists|j: int| 0 <= j < steps.len() && (#[trigger] steps[j]).clears_the_way(),
    decreases steps.len(),
{
    assert(steps[steps.len() - 1].goes());
    if steps.last().op is Connecting && steps.len() > 1 {
        lemma_list_run_without_last_step(address, steps);
        let init = steps.drop_last();
        law_other_device_is_disconnected_first(address, init);
        let j = choose|j: int| 0 <= j < init.len() && (#[trigger] init[j]).clears_the_way();
        assert(steps[j].clears_the_way());
    } else {
        assert(steps[steps.len() - 1].clears_the_way());
    }
}

/// The services that a listing ends with, or is about to end with, are services that were read.
pub proof fn law_listed_services_were_read<P: Platform>(
    address: String,
    steps: Seq<ListServicesStep<P>>,
    services: Vec<Service>,
)
    requires
        is_list_run(address, steps),
        steps.last().next == ListServicesOp::<P>::Finished(Ok(services)) || steps.last().next
            == ListServicesOp::<P>::Disconnecting(Ok(services)),
    ensures
        exists|j: int| 0 <= j < steps.len() && (#[trigger] steps[j]).reads(services@),
    decreases steps.len(),
{
    let last = steps.last();
    assert(steps[steps.len() - 1].goes());
    if last.op is Reading || last.op is ReadingOnce {
        assert(steps[steps.len() - 1].reads(services@));
    } else if steps.len() > 1 {
        lemma_list_run_without_last_step(address, steps);
        let init = steps.drop_last();
        law_listed_services_were_read(address, init, services);
        let j = choose|j: int| 0 <= j < init.len() && (#[trigger] init[j]).reads(services@);
        assert(steps[j].reads(services@));
    }
}

/// The listing is about `device`.
pub open spec fn is_about<P: Platform>(
    op: ListServicesOp<P>,
    device: Arc<DiscoveredDevice<P>>,
) -> bool {
    match op {
        ListServicesOp::Reading(d) | ListServicesOp::ReadingOnce(d) => d == device,
        ListServicesOp::Checking(_, d)
        | ListServicesOp::DisconnectingOther(_, d)
        | ListServicesOp::Connecting(_, d) => d == device,
        _ => false,
    }
}

/// At some step `device` was the connected device and had this address, or was known under it.
pub open spec fn was_addressed<P: Platform>(
    address: Seq<char>,
    device: Arc<DiscoveredDevice<P>>,
    steps: Seq<ListServicesStep<P>>,
) -> bool {
    exists|i: int|
        #![trigger steps[i]]
        0 <= i < steps.len() && ((steps[i].handler.connection matches Some(conn)
            && conn.connected_dev == device && device.id@ == address) || (
        steps[i].handler.known_devices@.contains_key(address)
            && steps[i].handler.known_devices@[address] == device))
}

/// The listing asks, connects and reads only the device with the requested address, and asks for that
/// address to be connected.
pub proof fn law_listing_is_about_the_addressed_device<P: Platform>(
    address: String,
    steps: Seq<ListServicesStep<P>>,
)
    requires
        is_list_run(address, steps),
    ensures
        forall|device: Arc<DiscoveredDevice<P>>| #[trigger]
            is_about(steps.last().next, device) ==> was_addressed(address@, device, steps),
        match steps.last().next {
            ListServicesOp::Requested(a)
            | ListServicesOp::Checking(a, _)
            | ListServicesOp::DisconnectingOther(a, _)
            | ListServicesOp::Connecting(a, _) => a == address,
            _ => true,
        },
    decreases steps.len(),
{
    let last = steps[steps.len() - 1];
    assert(last.goes());
    if steps.len() > 1 {
        let init = steps.drop_last();
        lemma_list_run_without_last_step(address, steps);
        law_listing_is_about_the_addressed_device(address, init);
        assert forall|device: Arc<DiscoveredDevice<P>>| #[trigger]
            is_about(last.next, device) implies was_addressed(address@, device, steps) by {
            if last.op is Requested {
                assert(last.handler.connection is Some || last.handler.known_devices@.contains_key(
                    address@,
                ));
            } else {
                assert(is_about(last.op, device));
                let i = choose|i: int|
                    #![trigger init[i]]
                    0 <= i < init.len() && ((init[i].handler.connection matches Some(conn)
                        && conn.connected_dev == device && device.id@ == address@) || (
                    init[i].handler.known_devices@.contains_key(address@)
                        && init[i].handler.known_devices@[address@] == device));
                assert(steps[i] == init[i]);
            }
        }
    }
}

/// A listing whose device had to be connected ends with exactly what was read, or with the error of the
/// reading, after the device was disconnected, whatever came of that. Whatever happens to the handler
/// between two answers does not matter.
pub proof fn law_listing_gives_what_was_read<P: Platform>(
    h: Seq<Handler<P>>,
    address: String,
    device: Arc<DiscoveredDevice<P>>,
    read: Result<Vec<ServiceRead>, String>,
    other: Result<(), Error>,
    disconnected: Result<(), Error>,
    op1: ListServicesOp<P>,
    op2: ListServicesOp<P>,
    op3: ListServicesOp<P>,
    op4: ListServicesOp<P>,
    op5: ListServicesOp<P>,
    op6: ListServicesOp<P>,
)
    requires
        h.len() == 6,
        h[0].connection matches Some(conn) ==> conn.connected_dev.id@ != address@,
        h[0].known_devices@.contains_key(address@),
        h[0].known_devices@[address@] == device,
        list_services_goes(
            h[0],
            ListServicesOp::Requested(address),
            ListServicesEvent::Proceed,
            op1,
        ),
        list_services_goes(h[1], op1, ListServicesEvent::DeviceConnected(false), op2),
        if h[1].connection is Some {
            list_services_goes(h[2], op2, ListServicesEvent::Disconnected(other), op3)
        } else {
            op3 == op2
        },
        list_services_goes(h[3], op3, ListServicesEvent::Connected(Ok(())), op4),
        list_services_goes(h[4], op4, ListServicesEvent::Read(read), op5),
        list_services_goes(h[5], op5, ListServicesEvent::Disconnected(disconnected), op6),
    ensures
        op1 == ListServicesOp::Checking(address, device),
        h[1].connection is Some ==> op2 == ListServicesOp::DisconnectingOther(address, device),
        op3 == ListServicesOp::Connecting(address, device),
        op4 == ListServicesOp::ReadingOnce(device),
        op5 is Disconnecting,
        read matches Ok(services) ==> (op6 matches ListServicesOp::Finished(Ok(shown))
            && presents_services(shown@, services@)),
        read matches Err(message) ==> (op6 matches ListServicesOp::Finished(
            Err(Error::Btleplug(text)),
        ) && text@ == message@),
{
}

/// A listing of a device that is connected already ends with exactly what was read of it, or with the
/// error of the reading, and asks for nothing but the reading.
pub proof fn law_listing_of_a_connected_device_gives_what_was_read<P: Platform>(
    h: Seq<Handler<P>>,
    address: String,
    device: Arc<DiscoveredDevice<P>>,
    read: Result<Vec<ServiceRead>, String>,
    op1: ListServicesOp<P>,
    op2: ListServicesOp<P>,
    op3: ListServicesOp<P>,
)
    requires
        h.len() == 3,
        list_services_goes(
            h[0],
            ListServicesOp::Requested(address),
            ListServicesEvent::Proceed,
            op1,
        ),
        if h[0].connected_address() == Some(address@) {
            h[0].connection->0.connected_dev == device && op2 == op1
        } else {
            &&& h[0].known_devices@.contains_key(address@)
            &&& h[0].known_devices@[address@] == device
            &&& list_services_goes(h[1], op1, ListServicesEvent::DeviceConnected(true), op2)
        },
        list_services_goes(h[2], op2, ListServicesEvent::Read(read), op3),
    ensures
        op2 == ListServicesOp::Reading(device),
        read matches Ok(services) ==> (op3 matches ListServicesOp::Finished(Ok(shown))
            && presents_services(shown@, services@)),
        read matches Err(message) ==> (op3 matches ListServicesOp::Finished(
            Err(Error::Btleplug(text)),
        ) && text@ == message@),
{
}

/// A listing fails before it reads exactly if the device is unknown, with just that, or if it cannot be
/// connected, with the error of connecting.
pub proof fn law_listing_fails_as_answered<P: Platform>(
    step: ListServicesStep<P>,
    address: String,
    device: Arc<DiscoveredDevice<P>>,
)
    requires
        step.goes(),
    ensures
        step.op == ListServicesOp::<P>::Requested(address) && step.event is Proceed && (
        step.handler.connection matches Some(conn) ==> conn.connected_dev.id@ != address@)
            && !step.handler.known_devices@.contains_key(address@) ==> (step.next
            matches ListServicesOp::Finished(Err(Error::UnknownPeripheral(text))) && text@
            == address@),
        step.op == ListServicesOp::Connecting(address, device) ==> (step.event
            matches ListServicesEvent::Connected(Err(error)) ==> step.next
            == ListServicesOp::<P>::Finished(Err(error))),
        step.next is Finished && step.op !is Finished ==> step.op is Requested || step.op is Connecting
            || step.op is Reading || step.op is Disconnecting,
        step.next is Finished && step.op is Connecting ==> (step.event
            matches ListServicesEvent::Connected(Err(_))),
        step.next is Finished && step.op is Requested ==> !step.handler.known_devices@.contains_key(
            step.op->Requested_0@,
        ),
{
}

/// The listing moves as it is said to, and asks for its device to be connected without a callback and
/// with iBeacons allowed.
pub proof fn law_listing_moves_as_said<P: Platform>(
    handler: Handler<P>,
    op: ListServicesOp<P>,
    event: ListServicesEvent,
    next: ListServicesOp<P>,
    request: Option<ConnectRequest<P>>,
)
    requires
        call_ensures(Handler::<P>::discover_services, (&handler, op, event), next),
        call_ensures(ListServicesOp::<P>::connect_request, (&op,), request),
    ensures
        list_services_goes(handler, op, event, next),
        op matches ListServicesOp::Connecting(address, _) ==> (request matches Some(r) && r.address@
            == address@ && r.on_disconnect is NoHandler && r.allow_ibeacons),
        op !is Connecting ==> request is None,
{
}

} // verus!
