//! The state of the client, and what can be asked of it in one step.
use vstd::hash_map::StringHashMap;
use vstd::prelude::*;

use std::sync::Arc;

use crate::connection::Connection;
use crate::error::{Error, ErrorView, fails_with};
use crate::ids::{Uuid, hyphenated};
use crate::models::{AdapterState, DiscoveredDevice, WriteType};
use crate::platform::Platform;
use crate::timeout::{Timed, is_command_result, run_with_timeout};

verus! {

broadcast use vstd::std_specs::hash::group_hash_axioms;

/// The state that all operations share.
#[verifier::reject_recursive_types(P)]
pub struct Handler<P: Platform> {
    /// The adapter, once one has been opened.
    pub adapter: Option<Arc<P::Adapter>>,
    /// The devices that the last scan found, by address.
    pub known_devices: StringHashMap<Arc<DiscoveredDevice<P>>>,
    /// The task of the last scan.
    pub scan_task: Option<P::Task>,
    /// Who is told when a scan starts or ends.
    pub scan_update_channels: Vec<P::Sender>,
    /// The connection to the connected device.
    pub connection: Option<Connection<P>>,
    /// The device that is being connected.
    pub connecting: Option<Arc<DiscoveredDevice<P>>>,
    /// The last connection status that was sent to the watchers.
    pub connected: bool,
    /// Who is told when a device is connected or disconnected.
    pub connection_update_channels: Vec<P::Sender>,
    /// Whether scans may look for iBeacons.
    pub allow_ibeacons: bool,
}

/// A scan that was stopped.
pub struct StoppedScan<P: Platform> {
    /// The task of the scan. It is to be aborted.
    pub task: P::Task,
    /// The status to tell the listeners for scan updates.
    pub status: bool,
}

/// A value to be written to a characteristic.
pub struct WriteRequest<'a, P: Platform> {
    pub charac: Arc<P::Charac>,
    pub data: &'a [u8],
    /// Whether the device is to acknowledge the write.
    pub with_response: bool,
}

/// A status update on its way to all who listen for it.
#[derive(Debug)]
pub struct UpdateRound {
    /// The status to send.
    pub state: bool,
    /// How many listeners there are.
    pub total: usize,
    /// The listener whose turn it is.
    pub next: usize,
    /// The listeners that could not be reached.
    pub failed: Vec<usize>,
}

impl UpdateRound {
    /// A round that tells `state` to `total` listeners.
    pub fn new(state: bool, total: usize) -> (round: Self)
        ensures
            round.state == state,
            round.total == total,
            round.next == 0,
            round.failed@ == Seq::<usize>::empty(),
    {
        UpdateRound { state, total, next: 0, failed: Vec::new() }
    }

    /// The listener to send to now, or nothing if all have had their turn.
    pub fn target(&self) -> (target: Option<usize>)
        ensures
            target == if self.next < self.total {
                Some(self.next)
            } else {
                None
            },
    {
        if self.next < self.total {
            Some(self.next)
        } else {
            None
        }
    }

    /// The round after the listener whose turn it was has been sent to, with or without success.
    /// A failure is noted and keeps no one else from being told.
    pub open spec fn after(self, reached: bool, round: Self) -> bool {
        if self.next < self.total {
            &&& round.state == self.state
            &&& round.total == self.total
            &&& round.next == self.next + 1
            &&& round.failed@ == if reached {
                self.failed@
            } else {
                self.failed@.push(self.next)
            }
        } else {
            round == self
        }
    }

    /// Goes on to the next listener.
    pub fn sent(self, reached: bool) -> (round: Self)
        ensures
            self.after(reached, round),
    {
        if self.next >= self.total {
            return self;
        }
        let mut failed = self.failed;
        if !reached {
            failed.push(self.next);
        }
        UpdateRound { state: self.state, total: self.total, next: self.next + 1, failed }
    }
}

impl<'a, P: Platform> WriteRequest<'a, P> {
    /// The result of the write, which ran under the command time limit.
    pub fn finish(self, outcome: Timed<Result<(), String>>) -> (result: Result<(), Error>)
        ensures
            is_command_result(outcome, "write"@, result),
    {
        run_with_timeout(outcome, "write")
    }
}

/// The result of reading a characteristic, which ran under the command time limit.
pub fn finish_read(outcome: Timed<Result<Vec<u8>, String>>) -> (result: Result<Vec<u8>, Error>)
    ensures
        is_command_result(outcome, "read"@, result),
{
    run_with_timeout(outcome, "read")
}

impl<P: Platform> Handler<P> {
    /// The address of the connected device.
    pub open spec fn connected_address(self) -> Option<Seq<char>> {
        match self.connection {
            Some(conn) => Some(conn.connected_dev.id@),
            None => None,
        }
    }

    /// The handler has no adapter and no listeners, knows no device, and is neither scanning nor
    /// connected.
    pub open spec fn is_new(self) -> bool {
        &&& self.adapter is None
        &&& self.known_devices@ == Map::<Seq<char>, Arc<DiscoveredDevice<P>>>::empty()
        &&& self.scan_task is None
        &&& self.scan_update_channels@ == Seq::<P::Sender>::empty()
        &&& self.connection is None
        &&& self.connecting is None
        &&& !self.connected
        &&& self.connection_update_channels@ == Seq::<P::Sender>::empty()
        &&& !self.allow_ibeacons
    }

    /// A handler that knows no device and is not connected.
    pub fn new() -> (handler: Self)
        ensures
            handler.is_new(),
    {
        Handler {
            adapter: None,
            known_devices: StringHashMap::new(),
            scan_task: None,
            scan_update_channels: Vec::new(),
            connection: None,
            connecting: None,
            connected: false,
            connection_update_channels: Vec::new(),
            allow_ibeacons: false,
        }
    }

    /// The adapter, if one has been opened. Otherwise the default adapter is to be opened, and
    /// what came of it told to [`Handler::adapter_opened`].
    pub fn get_or_init_adapter(&self) -> (adapter: Option<Arc<P::Adapter>>)
        ensures
            adapter == self.adapter,
    {
        match &self.adapter {
            Some(adapter) => Some(adapter.clone()),
            None => None,
        }
    }

    /// `after` is this handler after an adapter was `opened`, or could not be, and `result` is what
    /// came of it.
    pub open spec fn opens_adapter(
        self,
        opened: Result<P::Adapter, String>,
        after: Self,
        result: Result<Arc<P::Adapter>, Error>,
    ) -> bool {
        match opened {
            Ok(adapter) => {
                &&& result == Ok::<Arc<P::Adapter>, Error>(Arc::new(adapter))
                &&& after == (Handler {
                    adapter: if self.adapter is Some {
                        self.adapter
                    } else {
                        Some(Arc::new(adapter))
                    },
                    ..self
                })
            },
            Err(message) => {
                &&& fails_with(result, ErrorView::Btleplug(message@))
                &&& after == self
            },
        }
    }

    /// Keeps the opened adapter, unless another one was kept before, and returns it.
    pub fn adapter_opened(&mut self, opened: Result<P::Adapter, String>) -> (result: Result<
        Arc<P::Adapter>,
        Error,
    >)
        ensures
            old(self).opens_adapter(opened, *final(self), result),
    {
        match opened {
            Ok(adapter) => {
                let adapter = Arc::new(adapter);
                if self.adapter.is_none() {
                    self.adapter = Some(adapter.clone());
                }
                Ok(adapter)
            },
            Err(message) => Err(Error::Btleplug(message)),
        }
    }

    /// Returns true if a device is connected.
    pub fn is_connected(&self) -> (connected: bool)
        ensures
            connected == self.connected,
    {
        self.connected
    }

    /// `scanning` tells whether the adapter is scanning: there is a scan's task, and it is not
    /// finished.
    pub open spec fn tells_scanning<F: Fn(&P::Task) -> bool>(
        self,
        is_finished: F,
        scanning: bool,
    ) -> bool {
        match self.scan_task {
            Some(task) => call_ensures(is_finished, (&task,), !scanning),
            None => !scanning,
        }
    }

    /// Returns true if the adapter is scanning: the last scan was not stopped, and its task has
    /// not ended by itself.
    pub fn is_scanning<F: Fn(&P::Task) -> bool>(&self, is_finished: F) -> (scanning: bool)
        requires
            self.scan_task matches Some(task) ==> call_requires(is_finished, (&task,)),
        ensures
            self.tells_scanning(is_finished, scanning),
    {
        match &self.scan_task {
            Some(task) => !is_finished(task),
            None => false,
        }
    }

    /// Gets the currently connected device.
    pub fn get_connected_device(&self) -> (device: Option<Arc<DiscoveredDevice<P>>>)
        ensures
            device == match self.connection {
                Some(conn) => Some(conn.connected_dev),
                None => None,
            },
    {
        match &self.connection {
            Some(conn) => Some(conn.connected_dev.clone()),
            None => None,
        }
    }

    /// `result` is what a request for the connected device gets.
    pub open spec fn finds_connected_device(
        self,
        result: Result<Arc<DiscoveredDevice<P>>, Error>,
    ) -> bool {
        match self.connection {
            Some(conn) => result == Ok::<Arc<DiscoveredDevice<P>>, Error>(conn.connected_dev),
            None => fails_with(result, ErrorView::NoDeviceConnected),
        }
    }

    /// Gets the currently connected device, or an error if there is none.
    pub fn require_connected_device(&self) -> (result: Result<Arc<DiscoveredDevice<P>>, Error>)
        ensures
            self.finds_connected_device(result),
    {
        match self.get_connected_device() {
            Some(device) => Ok(device),
            None => Err(Error::NoDeviceConnected),
        }
    }

    /// Whether the connected device has this address.
    pub fn is_connected_to(&self, address: &str) -> (same: bool)
        ensures
            same == (self.connected_address() == Some(address@)),
    {
        match &self.connection {
            Some(conn) => conn.connected_dev.id == address.to_owned(),
            None => false,
        }
    }

    /// Finds a previously discovered device by `address`.
    pub fn lookup_device(&self, address: &str) -> (result: Result<
        Arc<DiscoveredDevice<P>>,
        Error,
    >)
        ensures
            if self.known_devices@.contains_key(address@) {
                result == Ok::<Arc<DiscoveredDevice<P>>, Error>(self.known_devices@[address@])
            } else {
                fails_with(result, ErrorView::UnknownPeripheral(address@))
            },
    {
        match self.known_devices.get(address) {
            Some(device) => Ok(device.clone()),
            None => Err(Error::UnknownPeripheral(address.to_owned())),
        }
    }

    /// `result` is what a request for characteristic `c`, in `service` if one is named, gets.
    pub open spec fn finds_charac(
        self,
        c: Uuid,
        service: Option<Uuid>,
        result: Result<Arc<P::Charac>, Error>,
    ) -> bool {
        match self.connection {
            Some(conn) => match conn.charac(c, service) {
                Some(charac) => result == Ok::<Arc<P::Charac>, Error>(charac),
                None => fails_with(result, ErrorView::CharacNotAvailable(hyphenated(c))),
            },
            None => fails_with(result, ErrorView::NoDeviceConnected),
        }
    }

    /// Tries to get the characteristic with UUID `c` and service UUID `service`.
    pub fn require_charac(&self, c: Uuid, service: Option<Uuid>) -> (result: Result<
        Arc<P::Charac>,
        Error,
    >)
        ensures
            self.finds_charac(c, service, result),
    {
        match &self.connection {
            Some(conn) => conn.get_charac(c, service),
            None => Err(Error::NoDeviceConnected),
        }
    }

    /// `after` is this handler with one more listener for scan updates.
    pub open spec fn adds_scan_listener(self, tx: P::Sender, after: Self) -> bool {
        &&& after.scan_update_channels@ == self.scan_update_channels@.push(tx)
        &&& after == (Handler { scan_update_channels: after.scan_update_channels, ..self })
    }

    /// `after` is this handler with one more listener for connection updates.
    pub open spec fn adds_connection_listener(self, tx: P::Sender, after: Self) -> bool {
        &&& after.connection_update_channels@ == self.connection_update_channels@.push(tx)
        &&& after == (Handler {
            connection_update_channels: after.connection_update_channels,
            ..self
        })
    }

    /// Takes a sender that will be used to send changes in the scanning status.
    pub fn set_scanning_update_channel(&mut self, tx: P::Sender)
        ensures
            old(self).adds_scan_listener(tx, *final(self)),
    {
        self.scan_update_channels.push(tx);
    }

    /// Takes a sender that will be used to send changes in the connection status.
    pub fn set_connection_update_channel(&mut self, tx: P::Sender)
        ensures
            old(self).adds_connection_listener(tx, *final(self)),
    {
        self.connection_update_channels.push(tx);
    }

    /// A round that tells all listeners for connection updates that the status is `state`.
    pub fn send_connection_update(&self, state: bool) -> (round: UpdateRound)
        ensures
            round.state == state,
            round.total == self.connection_update_channels@.len(),
            round.next == 0,
            round.failed@ == Seq::<usize>::empty(),
    {
        UpdateRound::new(state, self.connection_update_channels.len())
    }

    /// A round that tells all listeners for scan updates that the status is `state`.
    pub fn send_scan_update(&self, state: bool) -> (round: UpdateRound)
        ensures
            round.state == state,
            round.total == self.scan_update_channels@.len(),
            round.next == 0,
            round.failed@ == Seq::<usize>::empty(),
    {
        UpdateRound::new(state, self.scan_update_channels.len())
    }

    /// `after` is this handler after the scan was `stopped`, if there was one.
    pub open spec fn stops_scan(self, after: Self, stopped: Option<StoppedScan<P>>) -> bool {
        &&& stopped == match self.scan_task {
            Some(task) => Some(StoppedScan::<P> { task, status: false }),
            None => None,
        }
        &&& after == (Handler { scan_task: None, ..self })
    }

    /// Stops scanning for devices. The task of the scan is handed out: it is to be aborted, and
    /// then the listeners for scan updates are to be told that no scan is running. Without a scan
    /// there is nothing to do.
    pub fn stop_scan(&mut self) -> (stopped: Option<StoppedScan<P>>)
        ensures
            old(self).stops_scan(*final(self), stopped),
    {
        match self.scan_task.take() {
            Some(task) => Some(StoppedScan { task, status: false }),
            None => None,
        }
    }

    /// A connect event of the device with this address counts: the device is being connected, or
    /// it is the device of the connection.
    pub open spec fn expects(self, address: Seq<char>) -> bool {
        ||| self.connecting matches Some(device) && device.id@ == address
        ||| self.connected_address() == Some(address)
    }

    /// `after` is this handler after a connect event of the device with this address, and `send`
    /// is what to send to the watchers. If the event counts, the status becomes connected.
    pub open spec fn connect_event_goes(
        self,
        address: Seq<char>,
        after: Self,
        send: Option<bool>,
    ) -> bool {
        if self.expects(address) {
            &&& send == Some(true)
            &&& after == (Handler { connected: true, ..self })
        } else {
            &&& send is None
            &&& after == self
        }
    }

    /// Whether the device that is being connected has this address.
    pub fn is_connecting_to(&self, address: &str) -> (same: bool)
        ensures
            same == (self.connecting matches Some(device) && device.id@ == address@),
    {
        match &self.connecting {
            Some(device) => device.id == address.to_owned(),
            None => false,
        }
    }

    /// Connecting is given up from outside, without its next answer: no device is being connected
    /// any more.
    pub fn abandon_connect(&mut self)
        ensures
            *final(self) == (Handler { connecting: None, ..*old(self) }),
    {
        self.connecting = None;
    }

    /// The device `peripheral_id` has connected. If it is the device that is being connected, or
    /// the device of the connection, the status becomes connected, and the result is what to send
    /// to the watchers. Any other device is ignored.
    pub fn handle_connect(&mut self, peripheral_id: &str) -> (send: Option<bool>)
        ensures
            old(self).connect_event_goes(peripheral_id@, *final(self), send),
    {
        if self.is_connecting_to(peripheral_id) || self.is_connected_to(peripheral_id) {
            self.connected = true;
            Some(true)
        } else {
            None
        }
    }

    /// The write that sends `data` to a characteristic of the connected device. It is performed
    /// while no other read or write is under way.
    pub fn send_data<'a>(
        &self,
        c: Uuid,
        service: Option<Uuid>,
        data: &'a [u8],
        write_type: WriteType,
    ) -> (result: Result<WriteRequest<'a, P>, Error>)
        ensures
            match result {
                Ok(request) => {
                    &&& self.finds_charac(c, service, Ok(request.charac))
                    &&& request.data == data
                    &&& request.with_response == (write_type == WriteType::WithResponse)
                },
                Err(error) => self.finds_charac(c, service, Err(error)),
            },
    {
        match self.require_charac(c, service) {
            Ok(charac) => {
                let with_response = match write_type {
                    WriteType::WithResponse => true,
                    WriteType::WithoutResponse => false,
                };
                Ok(WriteRequest { charac, data, with_response })
            },
            Err(error) => Err(error),
        }
    }

    /// The characteristic of the connected device to receive data from. It is read while no
    /// other read or write is under way; [`finish_read`] tells the result.
    pub fn recv_data(&self, c: Uuid, service: Option<Uuid>) -> (result: Result<
        Arc<P::Charac>,
        Error,
    >)
        ensures
            self.finds_charac(c, service, result),
    {
        self.require_charac(c, service)
    }

    /// `after` is this handler without the listeners for characteristic `c`, which were `removed`.
    pub open spec fn unsubscribes(self, c: Uuid, removed: Seq<P::Task>, after: Self) -> bool {
        match (self.connection, after.connection) {
            (Some(before_conn), Some(conn)) => {
                &&& after == (Handler { connection: after.connection, ..self })
                &&& conn == (Connection { notify_listeners: conn.notify_listeners, ..before_conn })
                &&& conn.notify_listeners@ == before_conn.notify_listeners@.remove(c)
                &&& removed == before_conn.listeners(c)
            },
            _ => false,
        }
    }

    /// Unsubscribe from notifications for the given characteristic. All tasks that listen for it
    /// are removed from the list of listeners and handed out: they are to be aborted.
    pub fn unsubscribe(&mut self, c: Uuid) -> (result: Result<Vec<P::Task>, Error>)
        ensures
            match result {
                Ok(removed) => old(self).unsubscribes(c, removed@, *final(self)),
                Err(error) => {
                    &&& old(self).connection is None
                    &&& error@ == ErrorView::NoDeviceConnected
                    &&& *final(self) == *old(self)
                },
            },
            old(self).connection is Some ==> result is Ok,
    {
        match &mut self.connection {
            Some(conn) => Ok(conn.remove_listeners(c)),
            None => Err(Error::NoDeviceConnected),
        }
    }

    /// Returns the connected device. What it is shown as takes the questions of
    /// [`DeviceQuery`](crate::models::DeviceQuery).
    pub fn connected_device(&self) -> (result: Result<Arc<DiscoveredDevice<P>>, Error>)
        ensures
            self.finds_connected_device(result),
    {
        self.require_connected_device()
    }

    /// The state of the adapter. `available` is what the adapter said when asked whether it is
    /// available; without an adapter to ask, it is the error of opening one.
    pub fn get_adapter_state(available: Result<Result<bool, String>, Error>) -> (state:
        AdapterState)
        ensures
            state == match available {
                Ok(Ok(true)) => AdapterState::On,
                Ok(Ok(false)) => AdapterState::Off,
                _ => AdapterState::Unknown,
            },
    {
        match available {
            Ok(Ok(available)) => {
                if available {
                    AdapterState::On
                } else {
                    AdapterState::Off
                }
            },
            _ => AdapterState::Unknown,
        }
    }
}

/// Every listener is told once, in order, whoever could not be reached: after `n` answers it is
/// the turn of listener `n`, and those noted as not reached are exactly those that were not.
pub proof fn law_every_listener_is_told(rounds: Seq<UpdateRound>, reached: Seq<bool>, n: nat)
    requires
        rounds.len() == reached.len() + 1,
        n <= reached.len(),
        rounds[0].next == 0,
        rounds[0].failed@ == Seq::<usize>::empty(),
        reached.len() <= rounds[0].total,
        forall|i: int|
            #![trigger reached[i]]
            0 <= i < reached.len() ==> rounds[i].after(reached[i], rounds[i + 1]),
    ensures
        rounds[n as int].next == n,
        rounds[n as int].total == rounds[0].total,
        rounds[n as int].state == rounds[0].state,
        forall|k: usize| #[trigger]
            rounds[n as int].failed@.contains(k) <==> k < n && !reached[k as int],
    decreases n,
{
    if n > 0 {
        let m = (n - 1) as nat;
        law_every_listener_is_told(rounds, reached, m);
        assert(rounds[m as int].after(reached[m as int], rounds[m as int + 1]));
        let failed = rounds[m as int].failed@;
        assert forall|k: usize| #[trigger]
            rounds[n as int].failed@.contains(k) <==> k < n && !reached[k as int] by {
            assert(failed.contains(k) <==> k < m && !reached[k as int]);
            if reached[m as int] {
                assert(rounds[n as int].failed@ == failed);
            } else {
                assert(rounds[n as int].failed@ == failed.push(rounds[m as int].next));
                if failed.contains(k) {
                    let j = choose|j: int| 0 <= j < failed.len() && failed[j] == k;
                    assert(failed.push(rounds[m as int].next)[j] == k);
                }
                assert(failed.push(rounds[m as int].next)[failed.len() as int]
                    == rounds[m as int].next);
            }
        }
    }
}

/// A handler knows nothing and does nothing at first.
pub proof fn law_new_handler_is_idle<P: Platform>(handler: Handler<P>)
    requires
        call_ensures(Handler::<P>::new, (), handler),
    ensures
        handler.is_new(),
        handler.adapter is None,
        forall|address: Seq<char>| !handler.known_devices@.contains_key(address),
        handler.scan_task is None,
        handler.connection is None,
        handler.connecting is None,
        !handler.connected,
        handler.scan_update_channels@.len() == 0,
        handler.connection_update_channels@.len() == 0,
        !handler.allow_ibeacons,
{
}

/// The first adapter that is opened is the one that is found from then on, and no failure puts one
/// there.
pub proof fn law_first_opened_adapter_is_found<P: Platform>(
    handler: &mut Handler<P>,
    opened: Result<P::Adapter, String>,
    result: Result<Arc<P::Adapter>, Error>,
    found: Option<Arc<P::Adapter>>,
    found_after: Option<Arc<P::Adapter>>,
)
    requires
        call_ensures(Handler::<P>::get_or_init_adapter, (&*handler,), found),
        call_ensures(Handler::<P>::adapter_opened, (handler, opened), result),
        call_ensures(Handler::<P>::get_or_init_adapter, (&*final(handler),), found_after),
    ensures
        found is Some ==> found_after == found,
        found is None && opened is Ok ==> found_after == Some(Arc::new(opened->Ok_0)),
        found is None && opened is Err ==> found_after is None,
        opened matches Ok(adapter) ==> result == Ok::<Arc<P::Adapter>, Error>(Arc::new(adapter)),
        opened matches Err(message) ==> (result matches Err(Error::Btleplug(text)) && text@
            == message@),
        final(handler).known_devices == old(handler).known_devices,
        final(handler).connection == old(handler).connection,
        final(handler).connected == old(handler).connected,
        final(handler).scan_task == old(handler).scan_task,
{
}

/// Exactly the devices that are known are found, each under the address it is known by.
pub proof fn law_known_device_is_found<P: Platform>(
    handler: Handler<P>,
    address: &str,
    result: Result<Arc<DiscoveredDevice<P>>, Error>,
)
    requires
        call_ensures(Handler::<P>::lookup_device, (&handler, address), result),
    ensures
        result matches Ok(device) ==> handler.known_devices@.contains_key(address@)
            && handler.known_devices@[address@] == device,
        result is Err ==> !handler.known_devices@.contains_key(address@),
        result matches Err(error) ==> (error matches Error::UnknownPeripheral(text) && text@
            == address@),
{
}

/// The connected device is the one of the connection, for whoever asks for it, and without a
/// connection there is none.
pub proof fn law_connected_device_is_that_of_the_connection<P: Platform>(
    handler: Handler<P>,
    found: Option<Arc<DiscoveredDevice<P>>>,
    required: Result<Arc<DiscoveredDevice<P>>, Error>,
    connected: Result<Arc<DiscoveredDevice<P>>, Error>,
    address: &str,
    same: bool,
)
    requires
        call_ensures(Handler::<P>::get_connected_device, (&handler,), found),
        call_ensures(Handler::<P>::require_connected_device, (&handler,), required),
        call_ensures(Handler::<P>::connected_device, (&handler,), connected),
        call_ensures(Handler::<P>::is_connected_to, (&handler, address), same),
    ensures
        handler.connection matches Some(conn) ==> {
            &&& found == Some(conn.connected_dev)
            &&& required matches Ok(device) && device == conn.connected_dev
            &&& connected matches Ok(device) && device == conn.connected_dev
            &&& same == (conn.connected_dev.id@ == address@)
        },
        handler.connection is None ==> {
            &&& found is None
            &&& required matches Err(Error::NoDeviceConnected)
            &&& connected matches Err(Error::NoDeviceConnected)
            &&& !same
        },
{
    if let Err(error) = required {
        assert(error@ == ErrorView::NoDeviceConnected);
    }
    if let Err(error) = connected {
        assert(error@ == ErrorView::NoDeviceConnected);
    }
}

/// Reading and writing address the same characteristic, the one that the connection gives for the
/// request. What is written is exactly the data, with or without response as asked. Without a connection
/// nothing is addressed.
pub proof fn law_reads_and_writes_address_the_characteristic<'a, P: Platform>(
    handler: Handler<P>,
    c: Uuid,
    service: Option<Uuid>,
    data: &'a [u8],
    write_type: WriteType,
    addressed: Result<Arc<P::Charac>, Error>,
    required: Result<Arc<P::Charac>, Error>,
    read: Result<Arc<P::Charac>, Error>,
    written: Result<WriteRequest<'a, P>, Error>,
)
    requires
        handler.connection matches Some(conn) ==> call_ensures(
            Connection::<P>::get_charac,
            (&conn, c, service),
            addressed,
        ),
        call_ensures(Handler::<P>::require_charac, (&handler, c, service), required),
        call_ensures(Handler::<P>::recv_data, (&handler, c, service), read),
        call_ensures(Handler::<P>::send_data, (&handler, c, service, data, write_type), written),
    ensures
        handler.connection is Some && addressed is Ok ==> {
            &&& required == addressed
            &&& read == addressed
            &&& written matches Ok(request) && {
                &&& request.charac == addressed->Ok_0
                &&& request.data@ == data@
                &&& request.with_response <==> write_type is WithResponse
            }
        },
        handler.connection is Some && addressed is Err ==> {
            &&& required matches Err(Error::CharacNotAvailable(text)) && text@ == hyphenated(c)
            &&& read matches Err(Error::CharacNotAvailable(text)) && text@ == hyphenated(c)
            &&& written matches Err(Error::CharacNotAvailable(text)) && text@ == hyphenated(c)
        },
        handler.connection is None ==> {
            &&& required matches Err(Error::NoDeviceConnected)
            &&& read matches Err(Error::NoDeviceConnected)
            &&& written matches Err(Error::NoDeviceConnected)
        },
{
    if let Err(error) = required {
        assert(error@ is NoDeviceConnected || error@ is CharacNotAvailable);
    }
    if let Err(error) = read {
        assert(error@ is NoDeviceConnected || error@ is CharacNotAvailable);
    }
    if let Err(error) = written {
        assert(error@ is NoDeviceConnected || error@ is CharacNotAvailable);
    }
}

/// A read gives all the bytes that came, unchanged, or the backend's error, or a timeout.
pub proof fn law_read_gives_all_the_bytes(
    outcome: Timed<Result<Vec<u8>, String>>,
    result: Result<Vec<u8>, Error>,
)
    requires
        call_ensures(finish_read, (outcome,), result),
    ensures
        outcome matches Timed::Finished(Ok(bytes)) ==> (result matches Ok(data) && data@ == bytes@),
        outcome matches Timed::Finished(Err(message)) ==> (result matches Err(Error::Btleplug(text))
            && text@ == message@),
        outcome is Elapsed ==> (result matches Err(Error::Timeout(text)) && text@ == "read"@),
{
}

/// A write succeeds exactly if the backend says so in time.
pub proof fn law_write_succeeds_if_the_backend_says_so<'a, P: Platform>(
    request: WriteRequest<'a, P>,
    outcome: Timed<Result<(), String>>,
    result: Result<(), Error>,
)
    requires
        call_ensures(WriteRequest::<'a, P>::finish, (request, outcome), result),
    ensures
        result is Ok <==> outcome matches Timed::Finished(Ok(_)),
        outcome matches Timed::Finished(Err(message)) ==> (result matches Err(Error::Btleplug(text))
            && text@ == message@),
        outcome is Elapsed ==> (result matches Err(Error::Timeout(text)) && text@ == "write"@),
{
}

/// Every sender that was handed in is told every later status of its kind once: the round has as many
/// turns as there are senders, and turn `n` is the one of sender `n`.
pub proof fn law_round_has_a_turn_for_every_sender<P: Platform>(
    handler: Handler<P>,
    state: bool,
    connection_round: UpdateRound,
    scan_round: UpdateRound,
    target: Option<usize>,
    round: UpdateRound,
)
    requires
        call_ensures(Handler::<P>::send_connection_update, (&handler, state), connection_round),
        call_ensures(Handler::<P>::send_scan_update, (&handler, state), scan_round),
        call_ensures(UpdateRound::target, (&round,), target),
    ensures
        connection_round.state == state,
        connection_round.total == handler.connection_update_channels@.len(),
        connection_round.next == 0,
        scan_round.state == state,
        scan_round.total == handler.scan_update_channels@.len(),
        scan_round.next == 0,
        round.next < round.total ==> target == Some(round.next),
        round.next >= round.total ==> target is None,
{
}

/// After each turn it is the next one's, whether or not the sender could be reached, and only who could
/// not is noted.
pub proof fn law_turn_passes_on(round: UpdateRound, reached: bool, after: UpdateRound)
    requires
        round.next < round.total,
        call_ensures(UpdateRound::sent, (round, reached), after),
    ensures
        round.after(reached, after),
        after.next == round.next + 1,
        after.total == round.total,
        after.state == round.state,
        reached ==> after.failed@ == round.failed@,
        !reached ==> after.failed@ == round.failed@.push(round.next),
{
}

/// A sender that is handed in joins the others and changes nothing else.
pub proof fn law_sender_joins_the_others<P: Platform>(
    scanning: &mut Handler<P>,
    connecting: &mut Handler<P>,
    tx: P::Sender,
    done: (),
)
    requires
        call_ensures(Handler::<P>::set_scanning_update_channel, (scanning, tx), done),
        call_ensures(Handler::<P>::set_connection_update_channel, (connecting, tx), done),
    ensures
        final(scanning).scan_update_channels@ == old(scanning).scan_update_channels@.push(tx),
        *final(scanning) == (Handler {
            scan_update_channels: final(scanning).scan_update_channels,
            ..*old(scanning)
        }),
        final(connecting).connection_update_channels@ == old(
            connecting
        ).connection_update_channels@.push(tx),
        *final(connecting) == (Handler {
            connection_update_channels: final(connecting).connection_update_channels,
            ..*old(connecting)
        }),
{
}

/// A scan that is stopped is handed out, is no scan any more, and its listeners are to be told that no
/// scan is running. Nothing else changes.
pub proof fn law_stopped_scan_is_handed_out<P: Platform>(
    handler: &mut Handler<P>,
    stopped: Option<StoppedScan<P>>,
)
    requires
        call_ensures(Handler::<P>::stop_scan, (handler,), stopped),
    ensures
        old(handler).stops_scan(*final(handler), stopped),
        old(handler).scan_task matches Some(task) ==> (stopped matches Some(scan) && scan.task == task
            && !scan.status),
        old(handler).scan_task is None ==> stopped is None,
        *final(handler) == (Handler { scan_task: None, ..*old(handler) }),
{
}

/// A connect event raises the status exactly if it is of the device that is being connected or of the
/// device of the connection. Nothing else changes.
pub proof fn law_connect_event_raises_the_status<P: Platform>(
    handler: &mut Handler<P>,
    address: &str,
    send: Option<bool>,
)
    requires
        call_ensures(Handler::<P>::handle_connect, (handler, address), send),
    ensures
        old(handler).connect_event_goes(address@, *final(handler), send),
        (old(handler).connecting matches Some(device) && device.id@ == address@) || (old(
            handler
        ).connection matches Some(conn) && conn.connected_dev.id@ == address@) ==> send == Some(true)
            && *final(handler) == (Handler { connected: true, ..*old(handler) }),
        !((old(handler).connecting matches Some(device) && device.id@ == address@) || (old(
            handler
        ).connection matches Some(conn) && conn.connected_dev.id@ == address@)) ==> send is None
            && *final(handler) == *old(handler),
{
}

/// A connect event counts exactly as it is said to.
pub proof fn law_expected_events_count<P: Platform>(
    handler: Handler<P>,
    address: Seq<char>,
    after: Handler<P>,
    send: Option<bool>,
)
    requires
        handler.connect_event_goes(address, after, send),
    ensures
        send is Some <==> (handler.connecting matches Some(device) && device.id@ == address) || (
        handler.connection matches Some(conn) && conn.connected_dev.id@ == address),
        send is Some ==> send == Some(true) && after.connected,
        send is None ==> after == handler,
        after == (Handler { connected: after.connected, ..handler }),
{
}

/// Unsubscribing hands out every task that listens for the characteristic and touches nothing else.
/// Without a connection it fails.
pub proof fn law_unsubscribing_ends_every_listener<P: Platform>(
    handler: &mut Handler<P>,
    c: Uuid,
    result: Result<Vec<P::Task>, Error>,
)
    requires
        call_ensures(Handler::<P>::unsubscribe, (handler, c), result),
    ensures
        old(handler).connection is None ==> (result matches Err(Error::NoDeviceConnected)) && *final(
            handler
        ) == *old(handler),
        old(handler).connection matches Some(conn) ==> {
            &&& result matches Ok(removed) && {
                &&& conn.notify_listeners@.contains_key(c) ==> removed@ == conn.notify_listeners@[c]@
                &&& !conn.notify_listeners@.contains_key(c) ==> removed@.len() == 0
            }
            &&& final(handler).connection matches Some(after) && {
                &&& after.notify_listeners@ == conn.notify_listeners@.remove(c)
                &&& after.connected_dev == conn.connected_dev
                &&& after.services == conn.services
                &&& after.characs == conn.characs
                &&& after.device_event_handle == conn.device_event_handle
                &&& after.on_disconnect == conn.on_disconnect
            }
        },
        final(handler).connected == old(handler).connected,
        final(handler).known_devices == old(handler).known_devices,
{
    if let Err(error) = result {
        assert(error@ == ErrorView::NoDeviceConnected);
    }
}

/// The state of the adapter is what the adapter said, and unknown if it said nothing.
pub proof fn law_adapter_state_is_what_it_said<P: Platform>(
    available: Result<Result<bool, String>, Error>,
    state: AdapterState,
)
    requires
        call_ensures(Handler::<P>::get_adapter_state, (available,), state),
    ensures
        state is On <==> available == Ok::<Result<bool, String>, Error>(Ok(true)),
        state is Off <==> available == Ok::<Result<bool, String>, Error>(Ok(false)),
{
}

/// The status is what was sent to the watchers last.
pub proof fn law_status_is_told<P: Platform>(handler: Handler<P>, connected: bool)
    requires
        call_ensures(Handler::<P>::is_connected, (&handler,), connected),
    ensures
        connected == handler.connected,
{
}

/// The device that is being connected is known by its address, until connecting is over or abandoned.
pub proof fn law_device_is_being_connected_until_abandoned<P: Platform>(
    handler: &mut Handler<P>,
    address: &str,
    before: bool,
    done: (),
    after: bool,
)
    requires
        call_ensures(Handler::<P>::is_connecting_to, (&*handler, address), before),
        call_ensures(Handler::<P>::abandon_connect, (handler,), done),
        call_ensures(Handler::<P>::is_connecting_to, (&*final(handler), address), after),
    ensures
        before <==> (old(handler).connecting matches Some(device) && device.id@ == address@),
        !after,
        *final(handler) == (Handler { connecting: None, ..*old(handler) }),
{
}

/// The connected address is that of the device of the connection.
pub proof fn law_connected_address_is_that_of_the_connection<P: Platform>(handler: Handler<P>)
    ensures
        handler.connection matches Some(conn) ==> handler.connected_address() == Some(
            conn.connected_dev.id@,
        ),
        handler.connection is None ==> handler.connected_address() is None,
{
}

/// A round tells its status to as many listeners as it was made for, beginning with the first.
pub proof fn law_round_begins_with_the_first(state: bool, total: usize, round: UpdateRound)
    requires
        call_ensures(UpdateRound::new, (state, total), round),
    ensures
        round.state == state,
        round.total == total,
        round.next == 0,
        round.failed@.len() == 0,
{
}

} // verus!
