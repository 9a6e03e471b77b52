//! Connecting to a device.
use vstd::prelude::*;

use std::sync::Arc;

use crate::connection::{Connection, ServiceListing, is_listed};
use crate::error::{Error, ErrorView, fails_with};
use crate::event_handlers::OnDisconnectHandler;
use crate::filter::ScanFilter;
use crate::handler::Handler;
use crate::ids::Uuid;
use crate::models::{DiscoveredDevice, presents_services};
use crate::platform::Platform;
use crate::scan::{DiscoverRequest, knows_by_address};
use crate::timeout::{Timed, is_command_result, run_with_timeout};

verus! {

/// How often a connection is attempted before it is given up.
pub const MAX_ATTEMPTS: u8 = 3;

/// The pause, in seconds, between two attempts.
pub const RETRY_PAUSE_SECS: u64 = 1;

/// The duration, in milliseconds, of the scan that is started if no device is known.
pub const CONNECT_SCAN_MILLIS: u64 = 1000;

/// One attempt to connect a device.
#[derive(Debug)]
pub enum Attempt {
    /// Ask the device whether it is connected.
    Checking,
    /// Have the adapter connect the device, under the command time limit and while no other
    /// command is under way.
    Connecting,
    /// Wait for the next connection status that is sent to the watchers.
    AwaitingEvent,
    /// The attempt is over.
    Finished(Result<(), Error>),
}

/// An answer to what an [`Attempt`] asks for.
#[derive(Debug)]
pub enum AttemptEvent {
    /// Whether the device is connected.
    DeviceConnected(bool),
    /// There is no adapter to connect the device with.
    AdapterFailed(Error),
    /// The adapter has connected the device, or failed to.
    Connected(Timed<Result<(), String>>),
    /// A connection status was sent to the watchers.
    StatusSent,
}

/// What is asked of [`Handler::connect`].
pub struct ConnectRequest<P: Platform> {
    pub address: String,
    pub on_disconnect: OnDisconnectHandler<P::SyncCallback, P::AsyncCallback>,
    pub allow_ibeacons: bool,
}

/// A request, the device that it names, and the task that follows the device's connection
/// events.
pub struct ConnectTarget<P: Platform> {
    pub request: ConnectRequest<P>,
    pub device: Arc<DiscoveredDevice<P>>,
    pub events: P::Task,
}

/// How far the connecting of a device has come.
#[verifier::reject_recursive_types(P)]
pub enum ConnectOp<P: Platform> {
    /// Nothing has happened yet.
    Requested(ConnectRequest<P>),
    /// No device is known: start a scan.
    Discovering(ConnectRequest<P>),
    /// Stop any scan.
    StoppingScan(ConnectRequest<P>),
    /// Wait until no other connecting or disconnecting is under way, then ask the device whether
    /// it is connected.
    Checking(ConnectRequest<P>, Arc<DiscoveredDevice<P>>),
    /// Start the task that follows the connection events of the device.
    Watching(ConnectRequest<P>, Arc<DiscoveredDevice<P>>),
    /// Attempt to connect, for the time `number` counted from 0.
    Attempting { target: ConnectTarget<P>, number: u8, attempt: Attempt },
    /// Attempt `number` has failed: pause.
    Pausing { target: ConnectTarget<P>, number: u8 },
    /// The device is connected: read its services.
    Reading(ConnectTarget<P>),
    /// Have the device discover its services, under the command time limit and while no other
    /// command is under way.
    DiscoveringServices(ConnectTarget<P>, Connection<P>),
    /// Read the services again.
    Rereading(ConnectTarget<P>, Connection<P>),
    /// The connection is in place. End the connection that it replaces, if there is one, and
    /// tell the listeners for connection updates.
    Announcing(Option<Connection<P>>),
    /// All is done.
    Finished(Result<(), Error>),
}

/// An answer to what a [`ConnectOp`] asks for.
pub enum ConnectEvent<P: Platform> {
    /// Begin.
    Proceed,
    /// A scan was started, or could not be.
    Discovered(Result<(), Error>),
    /// No scan is running any more.
    ScanStopped,
    /// Whether the device is connected.
    DeviceConnected(bool),
    /// The task that follows the device's connection events has started.
    Watching(P::Task),
    /// An answer to the attempt.
    Attempt(AttemptEvent),
    /// The pause is over.
    Paused,
    /// The services were read, or could not be.
    ServicesRead(Result<ServiceListing<P>, String>),
    /// The services were discovered, or could not be.
    ServicesDiscovered(Timed<Result<(), String>>),
    /// The listeners for connection updates have been told.
    Announced,
}

/// An attempt goes from `attempt` to `next` on `event`. `connected` and `after` are the status
/// before and after it, and `send` is what to send to the watchers.
///
/// A device that is connected already needs nothing more. Otherwise the adapter connects it, and
/// then the status decides, now or as soon as one is sent. An event that answers something else
/// changes nothing.
pub open spec fn attempt_goes(
    connected: bool,
    attempt: Attempt,
    event: AttemptEvent,
    after: bool,
    next: Attempt,
    send: Option<bool>,
) -> bool {
    match (attempt, event) {
        (Attempt::Checking, AttemptEvent::DeviceConnected(true)) => {
            &&& after
            &&& send == Some(true)
            &&& next == Attempt::Finished(Ok(()))
        },
        (Attempt::Checking, AttemptEvent::DeviceConnected(false)) => {
            &&& after == connected
            &&& send is None
            &&& next == Attempt::Connecting
        },
        (Attempt::Connecting, AttemptEvent::AdapterFailed(error)) => {
            &&& after == connected
            &&& send is None
            &&& next == Attempt::Finished(Err(error))
        },
        (Attempt::Connecting, AttemptEvent::Connected(outcome)) => {
            &&& after == connected
            &&& send is None
            &&& if outcome is Finished && outcome->Finished_0 is Ok {
                if connected {
                    next == Attempt::Finished(Ok(()))
                } else {
                    next == Attempt::AwaitingEvent
                }
            } else {
                next matches Attempt::Finished(result) && is_command_result(
                    outcome,
                    "Connect"@,
                    result,
                )
            }
        },
        (Attempt::AwaitingEvent, AttemptEvent::StatusSent) => {
            &&& after == connected
            &&& send is None
            &&& if connected {
                next == Attempt::Finished(Ok(()))
            } else {
                next == Attempt::Finished(Err(Error::ConnectionFailed))
            }
        },
        _ => after == connected && send is None && next == attempt,
    }
}

/// `next` is what follows when attempt `number` on `target` stands at `attempt`: the attempt
/// goes on, the device is connected, the next attempt comes after a pause, or the last attempt
/// has failed. Only in the last case the status becomes not connected.
pub open spec fn after_attempt<P: Platform>(
    target: ConnectTarget<P>,
    number: u8,
    attempt: Attempt,
    connected: bool,
    send: Option<bool>,
    after: bool,
    next: ConnectOp<P>,
    sent: Option<bool>,
) -> bool {
    match attempt {
        Attempt::Finished(Ok(())) => {
            &&& next == ConnectOp::Reading(target)
            &&& after == connected
            &&& sent == send
        },
        Attempt::Finished(Err(error)) => if number + 1 < MAX_ATTEMPTS {
            &&& next == (ConnectOp::Pausing { target, number })
            &&& after == connected
            &&& sent == send
        } else {
            &&& next == ConnectOp::<P>::Finished(Err(error))
            &&& !after
            &&& sent == Some(false)
        },
        _ => {
            &&& next == (ConnectOp::Attempting { target, number, attempt })
            &&& after == connected
            &&& sent == send
        },
    }
}

/// `conn` is a fresh connection to the device of `target`, of which `listing` was read.
pub open spec fn is_fresh_connection<P: Platform>(
    conn: Connection<P>,
    target: ConnectTarget<P>,
    listing: ServiceListing<P>,
) -> bool {
    &&& conn.connected_dev == target.device
    &&& is_listed(conn.services@, conn.characs@, listing)
    &&& conn.is_silent()
    &&& conn.device_event_handle is None
    &&& conn.on_disconnect is NoHandler
}

/// `conn` is `fresh` with what `listing` tells now, with the callback of the request, and with the
/// task that follows the device.
pub open spec fn is_complete_connection<P: Platform>(
    conn: Connection<P>,
    fresh: Connection<P>,
    target: ConnectTarget<P>,
    listing: ServiceListing<P>,
) -> bool {
    &&& is_listed(conn.services@, conn.characs@, listing)
    &&& conn == (Connection {
        services: conn.services,
        characs: conn.characs,
        on_disconnect: target.request.on_disconnect,
        device_event_handle: Some(target.events),
        ..fresh
    })
}

/// Connecting goes from `op` to `next` on `event`, while the handler goes from `before` to
/// `after`; `send` is what to send to the watchers. The device must be known, and must not be
/// connected already. As long as it is being attempted, its connect event counts. An event that answers something else changes
/// nothing.
pub open spec fn connect_goes<P: Platform>(
    before: Handler<P>,
    op: ConnectOp<P>,
    event: ConnectEvent<P>,
    after: Handler<P>,
    next: ConnectOp<P>,
    send: Option<bool>,
) -> bool {
    match (op, event) {
        (ConnectOp::Requested(request), ConnectEvent::Proceed) => {
            &&& after == before
            &&& send is None
            &&& if before.known_devices@.is_empty() {
                next == ConnectOp::Discovering(request)
            } else {
                next == ConnectOp::StoppingScan(request)
            }
        },
        (ConnectOp::Discovering(request), ConnectEvent::Discovered(result)) => {
            &&& after == before
            &&& send is None
            &&& match result {
                Ok(()) => next == ConnectOp::StoppingScan(request),
                Err(error) => next == ConnectOp::<P>::Finished(Err(error)),
            }
        },
        (ConnectOp::StoppingScan(request), ConnectEvent::ScanStopped) => {
            &&& after == before
            &&& send is None
            &&& if before.known_devices@.contains_key(request.address@) {
                next == ConnectOp::Checking(request, before.known_devices@[request.address@])
            } else {
                next matches ConnectOp::Finished(result) && fails_with(
                    result,
                    ErrorView::UnknownPeripheral(request.address@),
                )
            }
        },
        (ConnectOp::Checking(request, device), ConnectEvent::DeviceConnected(connected)) => {
            &&& after == before
            &&& send is None
            &&& if connected {
                next == ConnectOp::<P>::Finished(Err(Error::AlreadyConnected))
            } else {
                next == ConnectOp::Watching(request, device)
            }
        },
        (ConnectOp::Watching(request, device), ConnectEvent::Watching(events)) => {
            &&& after == (Handler { connecting: Some(device), ..before })
            &&& send is None
            &&& next == (ConnectOp::Attempting {
                target: ConnectTarget { request, device, events },
                number: 0,
                attempt: Attempt::Checking,
            })
        },
        (ConnectOp::Attempting { target, number, attempt }, ConnectEvent::Attempt(answer)) => {
            &&& after == (Handler {
                connected: after.connected,
                connecting: if next is Attempting || next is Pausing {
                    before.connecting
                } else {
                    None
                },
                ..before
            })
            &&& exists|connected: bool, moved: Attempt, told: Option<bool>|
                #![trigger attempt_goes(before.connected, attempt, answer, connected, moved, told)]
                attempt_goes(before.connected, attempt, answer, connected, moved, told)
                    && after_attempt(
                    target,
                    number,
                    moved,
                    connected,
                    told,
                    after.connected,
                    next,
                    send,
                )
        },
        (ConnectOp::Pausing { target, number }, ConnectEvent::Paused) => {
            &&& after == before
            &&& send is None
            &&& number + 1 < MAX_ATTEMPTS ==> next == (ConnectOp::Attempting {
                target,
                number: (number + 1) as u8,
                attempt: Attempt::Checking,
            })
            &&& number + 1 >= MAX_ATTEMPTS ==> next == op
        },
        (ConnectOp::Reading(target), ConnectEvent::ServicesRead(read)) => {
            &&& after == before
            &&& send is None
            &&& match read {
                Ok(listing) => next matches ConnectOp::DiscoveringServices(t, conn) && t == target
                    && is_fresh_connection(conn, target, listing),
                Err(message) => next matches ConnectOp::Finished(result) && fails_with(
                    result,
                    ErrorView::Btleplug(message@),
                ),
            }
        },
        (
            ConnectOp::DiscoveringServices(target, conn),
            ConnectEvent::ServicesDiscovered(outcome),
        ) => {
            &&& after == before
            &&& send is None
            &&& if outcome is Finished && outcome->Finished_0 is Ok {
                next == ConnectOp::Rereading(target, conn)
            } else {
                next matches ConnectOp::Finished(result) && is_command_result(
                    outcome,
                    "discover services"@,
                    result,
                )
            }
        },
        (ConnectOp::Rereading(target, fresh), ConnectEvent::ServicesRead(read)) => {
            &&& send is None
            &&& match read {
                Ok(listing) => {
                    &&& after == (Handler { connection: after.connection, ..before })
                    &&& after.connection matches Some(conn) && is_complete_connection(
                        conn,
                        fresh,
                        target,
                        listing,
                    )
                    &&& next == ConnectOp::Announcing(before.connection)
                },
                Err(message) => {
                    &&& after == before
                    &&& next matches ConnectOp::Finished(result) && fails_with(
                        result,
                        ErrorView::Btleplug(message@),
                    )
                },
            }
        },
        (ConnectOp::Announcing(_), ConnectEvent::Announced) => {
            &&& after == before
            &&& send is None
            &&& next == ConnectOp::<P>::Finished(Ok(()))
        },
        _ => after == before && send is None && next == op,
    }
}

impl<P: Platform> ConnectRequest<P> {
    /// The scan that is started if no device is known: it takes every device, reports none, and
    /// looks for iBeacons if the request allows it.
    pub fn scan(&self) -> (request: DiscoverRequest)
        ensures
            request == (DiscoverRequest {
                timeout: CONNECT_SCAN_MILLIS,
                filter: ScanFilter::NoFilter,
                allow_ibeacons: self.allow_ibeacons,
                report: false,
            }),
    {
        DiscoverRequest {
            timeout: CONNECT_SCAN_MILLIS,
            filter: ScanFilter::NoFilter,
            allow_ibeacons: self.allow_ibeacons,
            report: false,
        }
    }
}

impl<P: Platform> ConnectOp<P> {
    /// Whether all other connecting and disconnecting has to wait.
    pub fn needs_connection_lock(&self) -> (needed: bool)
        ensures
            needed == !(*self is Requested || *self is Discovering || *self is StoppingScan
                || *self is Finished),
    {
        match self {
            ConnectOp::Requested(_)
            | ConnectOp::Discovering(_)
            | ConnectOp::StoppingScan(_)
            | ConnectOp::Finished(_) => false,
            _ => true,
        }
    }

    /// The status to tell the listeners for connection updates, if it is time to.
    pub fn announcement(&self) -> (status: Option<bool>)
        ensures
            status == if *self is Announcing {
                Some(true)
            } else {
                None
            },
    {
        match self {
            ConnectOp::Announcing(_) => Some(true),
            _ => None,
        }
    }

    /// Whether all other commands to the device have to wait.
    pub fn needs_command_lock(&self) -> (needed: bool)
        ensures
            needed == match *self {
                ConnectOp::Attempting { attempt, .. } => attempt is Connecting,
                ConnectOp::DiscoveringServices(..) | ConnectOp::Rereading(..) => true,
                _ => false,
            },
    {
        match self {
            ConnectOp::Attempting { attempt: Attempt::Connecting, .. }
            | ConnectOp::DiscoveringServices(..)
            | ConnectOp::Rereading(..) => true,
            _ => false,
        }
    }
}

impl<P: Platform> Handler<P> {
    /// Moves an attempt to connect on by one answer. The second result is what to send to the
    /// watchers.
    pub fn connect_internal(&mut self, attempt: Attempt, event: AttemptEvent) -> (result: (
        Attempt,
        Option<bool>,
    ))
        ensures
            attempt_goes(
                old(self).connected,
                attempt,
                event,
                final(self).connected,
                result.0,
                result.1,
            ),
            *final(self) == (Handler { connected: final(self).connected, ..*old(self) }),
    {
        match (attempt, event) {
            (Attempt::Checking, AttemptEvent::DeviceConnected(is_connected)) => {
                if is_connected {
                    self.connected = true;
                    (Attempt::Finished(Ok(())), Some(true))
                } else {
                    (Attempt::Connecting, None)
                }
            },
            (Attempt::Connecting, AttemptEvent::AdapterFailed(error)) => {
                (Attempt::Finished(Err(error)), None)
            },
            (
                Attempt::Connecting,
                AttemptEvent::Connected(outcome),
            ) => match run_with_timeout(outcome, "Connect") {
                Ok(()) => {
                    if self.connected {
                        (Attempt::Finished(Ok(())), None)
                    } else {
                        (Attempt::AwaitingEvent, None)
                    }
                },
                Err(error) => (Attempt::Finished(Err(error)), None),
            },
            (Attempt::AwaitingEvent, AttemptEvent::StatusSent) => {
                if self.connected {
                    (Attempt::Finished(Ok(())), None)
                } else {
                    (Attempt::Finished(Err(Error::ConnectionFailed)), None)
                }
            },
            (attempt, _) => (attempt, None),
        }
    }

    /// Moves the connecting of a device on by one answer. The second result is what to send to
    /// the watchers.
    pub fn connect(&mut self, op: ConnectOp<P>, event: ConnectEvent<P>) -> (result: (
        ConnectOp<P>,
        Option<bool>,
    ))
        ensures
            connect_goes(*old(self), op, event, *final(self), result.0, result.1),
    {
        match (op, event) {
            (ConnectOp::Requested(request), ConnectEvent::Proceed) => {
                if self.known_devices.is_empty() {
                    (ConnectOp::Discovering(request), None)
                } else {
                    (ConnectOp::StoppingScan(request), None)
                }
            },
            (ConnectOp::Discovering(request), ConnectEvent::Discovered(result)) => match result {
                Ok(()) => (ConnectOp::StoppingScan(request), None),
                Err(error) => (ConnectOp::Finished(Err(error)), None),
            },
            (
                ConnectOp::StoppingScan(request),
                ConnectEvent::ScanStopped,
            ) => match self.lookup_device(request.address.as_str()) {
                Ok(device) => (ConnectOp::Checking(request, device), None),
                Err(error) => (ConnectOp::Finished(Err(error)), None),
            },
            (ConnectOp::Checking(request, device), ConnectEvent::DeviceConnected(connected)) => {
                if connected {
                    (ConnectOp::Finished(Err(Error::AlreadyConnected)), None)
                } else {
                    (ConnectOp::Watching(request, device), None)
                }
            },
            (ConnectOp::Watching(request, device), ConnectEvent::Watching(events)) => {
                self.connecting = Some(device.clone());
                let target = ConnectTarget { request, device, events };
                (ConnectOp::Attempting { target, number: 0, attempt: Attempt::Checking }, None)
            },
            (ConnectOp::Attempting { target, number, attempt }, ConnectEvent::Attempt(answer)) => {
                let (moved, told) = self.connect_internal(attempt, answer);
                match moved {
                    Attempt::Finished(Ok(())) => {
                        self.connecting = None;
                        (ConnectOp::Reading(target), told)
                    },
                    Attempt::Finished(Err(error)) => {
                        if number < MAX_ATTEMPTS - 1 {
                            (ConnectOp::Pausing { target, number }, told)
                        } else {
                            self.connecting = None;
                            self.connected = false;
                            (ConnectOp::Finished(Err(error)), Some(false))
                        }
                    },
                    moved => (ConnectOp::Attempting { target, number, attempt: moved }, told),
                }
            },
            (ConnectOp::Pausing { target, number }, ConnectEvent::Paused) => {
                if number < MAX_ATTEMPTS - 1 {
                    let number: u8 = number + 1;
                    (ConnectOp::Attempting { target, number, attempt: Attempt::Checking }, None)
                } else {
                    (ConnectOp::Pausing { target, number }, None)
                }
            },
            (ConnectOp::Reading(target), ConnectEvent::ServicesRead(read)) => match read {
                Ok(listing) => {
                    let conn = Connection::build(target.device.clone(), listing);
                    (ConnectOp::DiscoveringServices(target, conn), None)
                },
                Err(message) => (ConnectOp::Finished(Err(Error::Btleplug(message))), None),
            },
            (
                ConnectOp::DiscoveringServices(target, conn),
                ConnectEvent::ServicesDiscovered(outcome),
            ) => match run_with_timeout(outcome, "discover services") {
                Ok(()) => (ConnectOp::Rereading(target, conn), None),
                Err(error) => (ConnectOp::Finished(Err(error)), None),
            },
            (ConnectOp::Rereading(target, conn), ConnectEvent::ServicesRead(read)) => match read {
                Ok(listing) => {
                    let mut conn = conn;
                    conn.refresh_services_characs(listing);
                    conn.on_disconnect = target.request.on_disconnect;
                    conn.device_event_handle = Some(target.events);
                    let replaced = self.connection.take();
                    self.connection = Some(conn);
                    (ConnectOp::Announcing(replaced), None)
                },
                Err(message) => (ConnectOp::Finished(Err(Error::Btleplug(message))), None),
            },
            (ConnectOp::Announcing(_), ConnectEvent::Announced) => {
                (ConnectOp::Finished(Ok(())), None)
            },
            (op, _) => (op, None),
        }
    }
}

/// One step of connecting a device. Between two steps the handler may change in any way.
#[verifier::reject_recursive_types(P)]
pub struct ConnectStep<P: Platform> {
    pub before: Handler<P>,
    pub op: ConnectOp<P>,
    pub event: ConnectEvent<P>,
    pub after: Handler<P>,
    pub next: ConnectOp<P>,
    pub send: Option<bool>,
}

impl<P: Platform> ConnectStep<P> {
    /// The step is one that connecting can take.
    pub open spec fn goes(self) -> bool {
        connect_goes(self.before, self.op, self.event, self.after, self.next, self.send)
    }

    /// An attempt failed in this step.
    pub open spec fn fails_attempt(self) -> bool {
        self.op is Attempting && (self.next is Pausing || self.next is Finished)
    }

    /// An attempt succeeded in this step.
    pub open spec fn ends_attempts(self) -> bool {
        self.op is Attempting && self.next is Reading
    }

    /// The connection was put in place in this step.
    pub open spec fn installs(self) -> bool {
        self.op is Rereading && self.next is Announcing
    }
}

/// `steps` are steps of connecting a device for `request`, from its beginning.
pub open spec fn is_connect_run<P: Platform>(
    request: ConnectRequest<P>,
    steps: Seq<ConnectStep<P>>,
) -> bool {
    &&& steps.len() > 0
    &&& steps[0].op == ConnectOp::Requested(request)
    &&& forall|i: int| 0 <= i < steps.len() ==> #[trigger] steps[i].goes()
    &&& forall|i: int|
        #![trigger steps[i]]
        0 < i < steps.len() ==> steps[i].op == steps[i - 1].next
}

/// How many attempts failed in `steps`.
pub open spec fn failed_attempts<P: Platform>(steps: Seq<ConnectStep<P>>) -> nat
    decreases steps.len(),
{
    if steps.len() == 0 {
        0
    } else {
        failed_attempts(steps.drop_last()) + if steps.last().fails_attempt() {
            1nat
        } else {
            0nat
        }
    }
}

/// How many attempts succeeded in `steps`.
pub open spec fn successful_attempts<P: Platform>(steps: Seq<ConnectStep<P>>) -> nat
    decreases steps.len(),
{
    if steps.len() == 0 {
        0
    } else {
        successful_attempts(steps.drop_last()) + if steps.last().ends_attempts() {
            1nat
        } else {
            0nat
        }
    }
}

/// What holds of the attempts made before connecting stands at `op`.
spec fn attempts_fit<P: Platform>(op: ConnectOp<P>, failed: nat, successful: nat) -> bool {
    match op {
        ConnectOp::Requested(_)
        | ConnectOp::Discovering(_)
        | ConnectOp::StoppingScan(_)
        | ConnectOp::Checking(..)
        | ConnectOp::Watching(..) => failed == 0 && successful == 0,
        ConnectOp::Attempting { number, attempt, .. } => failed == number && number < MAX_ATTEMPTS
            && successful == 0 && attempt !is Finished,
        ConnectOp::Pausing { number, .. } => failed == number + 1 && number + 1 < MAX_ATTEMPTS
            && successful == 0,
        ConnectOp::Reading(_)
        | ConnectOp::DiscoveringServices(..)
        | ConnectOp::Rereading(..)
        | ConnectOp::Announcing(_)
        | ConnectOp::Finished(Ok(())) => failed < MAX_ATTEMPTS && successful == 1,
        ConnectOp::Finished(Err(_)) => failed + successful <= MAX_ATTEMPTS && successful <= 1,
    }
}

/// What precedes the last step of a run is a run, and leads to the last step.
proof fn lemma_run_without_last_step<P: Platform>(
    request: ConnectRequest<P>,
    steps: Seq<ConnectStep<P>>,
)
    requires
        is_connect_run(request, steps),
        steps.len() > 1,
    ensures
        is_connect_run(request, steps.drop_last()),
        steps.last().op == steps.drop_last().last().next,
{
    let init = steps.drop_last();
    assert forall|i: int| 0 <= i < init.len() implies #[trigger] init[i].goes() by {
        assert(steps[i].goes());
    }
    assert forall|i: int| #![trigger init[i]] 0 < i < init.len() implies init[i].op == init[i
        - 1].next by {
        assert(steps[i].op == steps[i - 1].next);
    }
    assert(steps[steps.len() - 1].op == steps[steps.len() - 2].next);
}

proof fn lemma_attempts_fit<P: Platform>(request: ConnectRequest<P>, steps: Seq<ConnectStep<P>>)
    requires
        is_connect_run(request, steps),
    ensures
        attempts_fit(steps.last().next, failed_attempts(steps), successful_attempts(steps)),
    decreases steps.len(),
{
    assert(steps[steps.len() - 1].goes());
    if steps.len() == 1 {
        assert(failed_attempts(steps.drop_last()) == 0);
        assert(successful_attempts(steps.drop_last()) == 0);
    } else {
        lemma_run_without_last_step(request, steps);
        lemma_attempts_fit(request, steps.drop_last());
    }
}

/// Connecting makes at most three attempts, of which at most one succeeds.
pub proof fn law_connect_makes_at_most_three_attempts<P: Platform>(
    request: ConnectRequest<P>,
    steps: Seq<ConnectStep<P>>,
)
    requires
        is_connect_run(request, steps),
    ensures
        failed_attempts(steps) + successful_attempts(steps) <= 3,
        successful_attempts(steps) <= 1,
{
    lemma_attempts_fit(request, steps);
}

/// A failed attempt is the end of connecting only if it is the third. Then the status becomes not
/// connected, and the watchers are told.
pub proof fn law_connect_gives_up_after_three_failures<P: Platform>(
    request: ConnectRequest<P>,
    steps: Seq<ConnectStep<P>>,
)
    requires
        is_connect_run(request, steps),
        steps.last().fails_attempt(),
        steps.last().next is Finished,
    ensures
        failed_attempts(steps) == 3,
        steps.last().next matches ConnectOp::Finished(Err(_)),
        !steps.last().after.connected,
        steps.last().send == Some(false),
{
    assert(steps[steps.len() - 1].goes());
    if steps.len() > 1 {
        lemma_run_without_last_step(request, steps);
        lemma_attempts_fit(request, steps.drop_last());
    }
}

/// Connecting for `request` that stands at `op` is still about that request, and about a device
/// that was known under the requested address.
spec fn serves<P: Platform>(
    op: ConnectOp<P>,
    request: ConnectRequest<P>,
    steps: Seq<ConnectStep<P>>,
) -> bool {
    match op {
        ConnectOp::Requested(r) | ConnectOp::Discovering(r) | ConnectOp::StoppingScan(r) => r
            == request,
        ConnectOp::Checking(r, device) | ConnectOp::Watching(r, device) => r == request && was_known(request.address@, device, steps),
        ConnectOp::Attempting { target, .. }
        | ConnectOp::Pausing { target, .. }
        | ConnectOp::Reading(target) => target.request == request && was_known(
            request.address@,
            target.device,
            steps,
        ) && was_watched(target.events, steps),
        ConnectOp::DiscoveringServices(target, conn) | ConnectOp::Rereading(target, conn) => {
            &&& target.request == request
            &&& was_known(request.address@, target.device, steps)
            &&& conn.connected_dev == target.device
            &&& conn.is_silent()
            &&& was_watched(target.events, steps)
            &&& op is Rereading ==> was_discovered(steps)
        },
        ConnectOp::Announcing(_) | ConnectOp::Finished(_) => true,
    }
}

/// At some step `device` was the known device with this address.
pub open spec fn was_known<P: Platform>(
    address: Seq<char>,
    device: Arc<DiscoveredDevice<P>>,
    steps: Seq<ConnectStep<P>>,
) -> bool {
    exists|i: int|
        #![trigger steps[i]]
        0 <= i < steps.len() && steps[i].before.known_devices@.contains_key(address)
            && steps[i].before.known_devices@[address] == device
}

/// At some step `task` was started to follow the connection events of the device.
pub open spec fn was_watched<P: Platform>(task: P::Task, steps: Seq<ConnectStep<P>>) -> bool {
    exists|i: int|
        #![trigger steps[i]]
        0 <= i < steps.len() && steps[i].op is Watching && steps[i].event
            == ConnectEvent::<P>::Watching(task)
}

/// At some step the device had discovered its services.
pub open spec fn was_discovered<P: Platform>(steps: Seq<ConnectStep<P>>) -> bool {
    exists|i: int|
        #![trigger steps[i]]
        0 <= i < steps.len() && steps[i].op is DiscoveringServices && (steps[i].event
            matches ConnectEvent::ServicesDiscovered(Timed::Finished(Ok(_))))
}

/// In this step the connection became one to a device that was known under the requested address,
/// with the services and characteristics that were read in this step, which is after the device had
/// discovered them, with the requested callback, with the task that follows the device, and with no
/// listeners. The connection that it replaces is handed on.
pub open spec fn installs_for<P: Platform>(
    step: ConnectStep<P>,
    request: ConnectRequest<P>,
    steps: Seq<ConnectStep<P>>,
) -> bool {
    &&& step.installs()
    &&& was_discovered(steps)
    &&& step.next == ConnectOp::Announcing(step.before.connection)
    &&& match (step.event, step.after.connection) {
        (ConnectEvent::ServicesRead(Ok(listing)), Some(conn)) => {
            &&& was_known(request.address@, conn.connected_dev, steps)
            &&& presents_services(conn.services@, listing.services@)
            &&& conn.characs@ == listing.characs@
            &&& conn.on_disconnect == request.on_disconnect
            &&& conn.device_event_handle matches Some(task) && was_watched(task, steps)
            &&& conn.is_silent()
        },
        _ => false,
    }
}

proof fn lemma_was_known_longer<P: Platform>(
    address: Seq<char>,
    device: Arc<DiscoveredDevice<P>>,
    steps: Seq<ConnectStep<P>>,
)
    requires
        steps.len() > 0,
        was_known(address, device, steps.drop_last()),
    ensures
        was_known(address, device, steps),
{
    let init = steps.drop_last();
    let i = choose|i: int|
        #![trigger init[i]]
        0 <= i < init.len() && init[i].before.known_devices@.contains_key(address)
            && init[i].before.known_devices@[address] == device;
    assert(steps[i] == init[i]);
}

proof fn lemma_was_watched_longer<P: Platform>(task: P::Task, steps: Seq<ConnectStep<P>>)
    requires
        steps.len() > 0,
        was_watched(task, steps.drop_last()),
    ensures
        was_watched(task, steps),
{
    let init = steps.drop_last();
    let i = choose|i: int|
        #![trigger init[i]]
        0 <= i < init.len() && init[i].op is Watching && init[i].event
            == ConnectEvent::<P>::Watching(task);
    assert(steps[i] == init[i]);
}

proof fn lemma_was_discovered_longer<P: Platform>(steps: Seq<ConnectStep<P>>)
    requires
        steps.len() > 0,
        was_discovered(steps.drop_last()),
    ensures
        was_discovered(steps),
{
    let init = steps.drop_last();
    let i = choose|i: int|
        #![trigger init[i]]
        0 <= i < init.len() && init[i].op is DiscoveringServices && (init[i].event
            matches ConnectEvent::ServicesDiscovered(Timed::Finished(Ok(_))));
    assert(steps[i] == init[i]);
}

/// What was known, watched and discovered stays so with one step more.
proof fn lemma_serves_longer<P: Platform>(request: ConnectRequest<P>, steps: Seq<ConnectStep<P>>)
    requires
        steps.len() > 0,
        serves(steps.last().op, request, steps.drop_last()),
    ensures
        serves(steps.last().op, request, steps),
{
    match steps.last().op {
        ConnectOp::Checking(_, device) | ConnectOp::Watching(_, device) => {
            lemma_was_known_longer(request.address@, device, steps);
        },
        ConnectOp::Attempting { target, .. }
        | ConnectOp::Pausing { target, .. }
        | ConnectOp::Reading(target) => {
            lemma_was_known_longer(request.address@, target.device, steps);
            lemma_was_watched_longer(target.events, steps);
        },
        ConnectOp::DiscoveringServices(target, _) => {
            lemma_was_known_longer(request.address@, target.device, steps);
            lemma_was_watched_longer(target.events, steps);
        },
        ConnectOp::Rereading(target, _) => {
            lemma_was_known_longer(request.address@, target.device, steps);
            lemma_was_watched_longer(target.events, steps);
            lemma_was_discovered_longer(steps);
        },
        _ => {},
    }
}

/// The last step of a run serves the request if what precedes it does.
proof fn lemma_step_serves<P: Platform>(request: ConnectRequest<P>, steps: Seq<ConnectStep<P>>)
    requires
        steps.len() > 0,
        steps.last().goes(),
        serves(steps.last().op, request, steps),
    ensures
        serves(steps.last().next, request, steps),
{
    let last = steps[steps.len() - 1];
    if last.op is StoppingScan && last.next is Checking {
        assert(last.before.known_devices@.contains_key(request.address@));
    }
    if last.op is Watching && last.next is Attempting {
        assert(last.event is Watching);
        assert(was_watched(last.event->Watching_0, steps));
    }
    if last.op is DiscoveringServices && last.next is Rereading {
        assert(last.event matches ConnectEvent::ServicesDiscovered(Timed::Finished(Ok(_))));
        assert(was_discovered(steps));
    }
}

/// The step that puts the connection in place does so for the request.
proof fn lemma_step_installs<P: Platform>(request: ConnectRequest<P>, steps: Seq<ConnectStep<P>>)
    requires
        steps.len() > 0,
        steps.last().goes(),
        steps.last().installs(),
        serves(steps.last().op, request, steps),
    ensures
        installs_for(steps.last(), request, steps),
{
}

/// A step that put the connection in place for the request still did so with one step more.
proof fn lemma_installed_longer<P: Platform>(
    step: ConnectStep<P>,
    request: ConnectRequest<P>,
    steps: Seq<ConnectStep<P>>,
)
    requires
        steps.len() > 0,
        installs_for(step, request, steps.drop_last()),
    ensures
        installs_for(step, request, steps),
{
    let conn = step.after.connection->0;
    lemma_was_known_longer(request.address@, conn.connected_dev, steps);
    lemma_was_watched_longer(conn.device_event_handle->0, steps);
    lemma_was_discovered_longer(steps);
}

/// Connecting has put its connection in place.
spec fn is_in_place<P: Platform>(op: ConnectOp<P>) -> bool {
    op is Announcing || op matches ConnectOp::Finished(Ok(_))
}

/// The connection is changed only by putting the new one in place.
proof fn lemma_step_and_place<P: Platform>(step: ConnectStep<P>)
    requires
        step.goes(),
    ensures
        !step.installs() && !is_in_place(step.op) ==> !is_in_place(step.next)
            && step.after.connection == step.before.connection,
        is_in_place(step.op) ==> is_in_place(step.next) && step.after.connection
            == step.before.connection,
        step.installs() ==> is_in_place(step.next) && !is_in_place(step.op),
{
}

/// What a run has done up to now: the request is still served, and the connection was changed
/// only by putting the new one in place, after which nothing can fail.
proof fn lemma_run_serves<P: Platform>(request: ConnectRequest<P>, steps: Seq<ConnectStep<P>>)
    requires
        is_connect_run(request, steps),
    ensures
        serves(steps.last().next, request, steps),
        !is_in_place(steps.last().next) ==> forall|i: int|
            #![trigger steps[i]]
            0 <= i < steps.len() ==> steps[i].after.connection == steps[i].before.connection,
        is_in_place(steps.last().next) ==> exists|i: int|
            #![trigger steps[i]]
            0 <= i < steps.len() && installs_for(steps[i], request, steps),
    decreases steps.len(),
{
    let last = steps[steps.len() - 1];
    assert(last.goes());
    lemma_step_and_place(last);
    if steps.len() == 1 {
        lemma_step_serves(request, steps);
    } else {
        let init = steps.drop_last();
        lemma_run_without_last_step(request, steps);
        lemma_run_serves(request, init);
        lemma_serves_longer(request, steps);
        lemma_step_serves(request, steps);
        if is_in_place(last.op) {
            let i = choose|i: int|
                #![trigger init[i]]
                0 <= i < init.len() && installs_for(init[i], request, init);
            lemma_installed_longer(init[i], request, steps);
            assert(steps[i] == init[i]);
        } else if last.installs() {
            lemma_step_installs(request, steps);
        } else {
            assert forall|i: int| #![trigger steps[i]] 0 <= i < steps.len() implies
                steps[i].after.connection == steps[i].before.connection by {
                if i < init.len() {
                    assert(steps[i] == init[i]);
                }
            }
        }
    }
}

/// Connecting that succeeds has put a connection in place: to the device that was known under the
/// requested address, with the services and characteristics of the reading that came last, after the
/// device had discovered them, and with the requested callback.
pub proof fn law_connect_success_installs_the_connection<P: Platform>(
    request: ConnectRequest<P>,
    steps: Seq<ConnectStep<P>>,
)
    requires
        is_connect_run(request, steps),
        steps.last().next matches ConnectOp::Finished(Ok(_)),
    ensures
        successful_attempts(steps) == 1,
        exists|i: int|
            #![trigger steps[i]]
            0 <= i < steps.len() && installs_for(steps[i], request, steps),
{
    lemma_run_serves(request, steps);
    lemma_attempts_fit(request, steps);
}

/// Connecting that fails leaves the connection as it was at every step.
pub proof fn law_failed_connect_keeps_the_connection<P: Platform>(
    request: ConnectRequest<P>,
    steps: Seq<ConnectStep<P>>,
)
    requires
        is_connect_run(request, steps),
        steps.last().next matches ConnectOp::Finished(Err(_)),
    ensures
        forall|i: int|
            #![trigger steps[i]]
            0 <= i < steps.len() ==> steps[i].after.connection == steps[i].before.connection,
{
    lemma_run_serves(request, steps);
}

/// A device that is connected already is refused, and nothing changes.
pub proof fn law_connected_device_is_refused<P: Platform>(
    step: ConnectStep<P>,
    request: ConnectRequest<P>,
    device: Arc<DiscoveredDevice<P>>,
)
    requires
        step.goes(),
        step.op == ConnectOp::Checking(request, device),
        step.event == ConnectEvent::<P>::DeviceConnected(true),
    ensures
        step.next == ConnectOp::<P>::Finished(Err(Error::AlreadyConnected)),
        step.after == step.before,
        step.send is None,
{
}

/// An address that is not known is refused, whatever connection there is, and nothing changes.
pub proof fn law_unknown_address_is_refused<P: Platform>(
    step: ConnectStep<P>,
    request: ConnectRequest<P>,
)
    requires
        step.goes(),
        step.op == ConnectOp::StoppingScan(request),
        step.event is ScanStopped,
        !step.before.known_devices@.contains_key(request.address@),
    ensures
        step.next matches ConnectOp::Finished(result) && fails_with(
            result,
            ErrorView::UnknownPeripheral(request.address@),
        ),
        step.after == step.before,
        step.send is None,
{
}

/// Connecting stands before its first attempt.
pub open spec fn precedes_attempts<P: Platform>(op: ConnectOp<P>) -> bool {
    op is Requested || op is Discovering || op is StoppingScan || op is Checking
}

/// Connecting that is refused before its first attempt has made no attempt, has changed nothing and
/// has told the watchers nothing.
pub proof fn law_refused_connect_changes_nothing<P: Platform>(
    request: ConnectRequest<P>,
    steps: Seq<ConnectStep<P>>,
)
    requires
        is_connect_run(request, steps),
        precedes_attempts(steps.last().op),
    ensures
        failed_attempts(steps) == 0,
        successful_attempts(steps) == 0,
        forall|i: int|
            #![trigger steps[i]]
            0 <= i < steps.len() ==> steps[i].after == steps[i].before && steps[i].send is None,
    decreases steps.len(),
{
    let last = steps[steps.len() - 1];
    assert(last.goes());
    let init = steps.drop_last();
    if steps.len() == 1 {
        assert(failed_attempts(init) == 0);
        assert(successful_attempts(init) == 0);
    } else {
        lemma_run_without_last_step(request, steps);
        assert(init[init.len() - 1].goes());
        law_refused_connect_changes_nothing(request, init);
        assert forall|i: int| #![trigger steps[i]] 0 <= i < steps.len() implies steps[i].after
            == steps[i].before && steps[i].send is None by {
            if i < init.len() {
                assert(steps[i] == init[i]);
            }
        }
    }
}

/// Nothing but the connecting itself changes which device is being connected.
pub open spec fn is_undisturbed<P: Platform>(steps: Seq<ConnectStep<P>>) -> bool {
    forall|i: int|
        #![trigger steps[i]]
        0 < i < steps.len() ==> steps[i].before.connecting == steps[i - 1].after.connecting
}

/// As long as a device is being attempted, it is the device that is being connected; once the
/// attempts are over there is none.
pub proof fn law_attempted_device_is_being_connected<P: Platform>(
    request: ConnectRequest<P>,
    steps: Seq<ConnectStep<P>>,
)
    requires
        is_connect_run(request, steps),
        is_undisturbed(steps),
        steps[0].before.connecting is None,
    ensures
        match steps.last().next {
            ConnectOp::Attempting { target, .. } | ConnectOp::Pausing {
                target,
                ..
            } => steps.last().after.connecting == Some(target.device),
            _ => steps.last().after.connecting is None,
        },
    decreases steps.len(),
{
    let last = steps[steps.len() - 1];
    assert(last.goes());
    if steps.len() > 1 {
        let init = steps.drop_last();
        lemma_run_without_last_step(request, steps);
        assert forall|i: int| #![trigger init[i]] 0 < i < init.len() implies
            init[i].before.connecting == init[i - 1].after.connecting by {
            assert(steps[i].before.connecting == steps[i - 1].after.connecting);
        }
        law_attempted_device_is_being_connected(request, init);
        assert(last.before.connecting == steps[steps.len() - 2].after.connecting);
    }
}

/// The connect event of the device completes the attempt that waits for it.
pub proof fn law_connect_event_completes_the_attempt<P: Platform>(
    before: Handler<P>,
    target: ConnectTarget<P>,
    number: u8,
    address: Seq<char>,
    connected: Handler<P>,
    send: Option<bool>,
    after: Handler<P>,
    next: ConnectOp<P>,
    sent: Option<bool>,
)
    requires
        before.connecting == Some(target.device),
        address == target.device.id@,
        before.connect_event_goes(address, connected, send),
        connect_goes(
            connected,
            ConnectOp::Attempting { target, number, attempt: Attempt::AwaitingEvent },
            ConnectEvent::Attempt(AttemptEvent::StatusSent),
            after,
            next,
            sent,
        ),
    ensures
        send == Some(true),
        next == ConnectOp::Reading(target),
        after.connected,
{
}

/// Connecting that succeeds has connected the requested address, as long as every device is known
/// under its own address.
pub proof fn law_connect_connects_the_requested_address<P: Platform>(
    request: ConnectRequest<P>,
    steps: Seq<ConnectStep<P>>,
)
    requires
        is_connect_run(request, steps),
        steps.last().next matches ConnectOp::Finished(Ok(_)),
        forall|i: int|
            #![trigger steps[i]]
            0 <= i < steps.len() ==> knows_by_address(steps[i].before),
    ensures
        exists|i: int|
            #![trigger steps[i]]
            0 <= i < steps.len() && steps[i].installs() && steps[i].after.connected_address()
                == Some(request.address@),
{
    lemma_run_serves(request, steps);
    let i = choose|i: int|
        #![trigger steps[i]]
        0 <= i < steps.len() && installs_for(steps[i], request, steps);
    let device = steps[i].after.connection->0.connected_dev;
    let k = choose|k: int|
        #![trigger steps[k]]
        0 <= k < steps.len() && steps[k].before.known_devices@.contains_key(request.address@)
            && steps[k].before.known_devices@[request.address@] == device;
    assert(knows_by_address(steps[k].before));
    assert(steps[i].after.connected_address() == Some(request.address@));
}

/// When an attempt has succeeded, the status is connected. If the watchers are told anything then,
/// it is that.
pub proof fn law_successful_attempt_means_connected<P: Platform>(
    request: ConnectRequest<P>,
    steps: Seq<ConnectStep<P>>,
)
    requires
        is_connect_run(request, steps),
        steps.last().ends_attempts(),
    ensures
        steps.last().after.connected,
        steps.last().send is None || steps.last().send == Some(true),
{
    assert(steps[steps.len() - 1].goes());
    if steps.len() > 1 {
        lemma_run_without_last_step(request, steps);
        lemma_attempts_fit(request, steps.drop_last());
    }
}

/// Connecting touches nothing but the connection, the device that is being connected, and the
/// status.
pub proof fn law_connecting_touches_only_the_connection<P: Platform>(step: ConnectStep<P>)
    requires
        step.goes(),
    ensures
        step.after == (Handler {
            connection: step.after.connection,
            connecting: step.after.connecting,
            connected: step.after.connected,
            ..step.before
        }),
{
}

/// Nothing is read for the connection any more once it is in place: what it was put in place with is
/// what connecting ends with.
pub proof fn law_connection_in_place_is_not_touched<P: Platform>(
    request: ConnectRequest<P>,
    steps: Seq<ConnectStep<P>>,
    i: int,
)
    requires
        is_connect_run(request, steps),
        0 <= i < steps.len(),
        steps[i].installs(),
    ensures
        steps.last().next is Announcing || steps.last().next matches ConnectOp::Finished(Ok(_)),
        forall|j: int|
            #![trigger steps[j]]
            i < j < steps.len() ==> steps[j].after == steps[j].before && !steps[j].installs(),
    decreases steps.len(),
{
    assert(steps[steps.len() - 1].goes());
    if i < steps.len() - 1 {
        let init = steps.drop_last();
        lemma_run_without_last_step(request, steps);
        assert(steps[i] == init[i]);
        law_connection_in_place_is_not_touched(request, init, i);
        assert forall|j: int| #![trigger steps[j]] i < j < steps.len() implies steps[j].after
            == steps[j].before && !steps[j].installs() by {
            if j < init.len() {
                assert(steps[j] == init[j]);
            }
        }
    }
}

/// Connecting whose answers are all good succeeds, whatever connection there was and whatever happens
/// to the handler between two answers. The connection that it puts in place has the services and the
/// characteristics of the second reading.
pub proof fn law_connect_with_good_answers_succeeds<P: Platform>(
    request: ConnectRequest<P>,
    steps: Seq<ConnectStep<P>>,
    device: Arc<DiscoveredDevice<P>>,
    task: P::Task,
    first: ServiceListing<P>,
    second: ServiceListing<P>,
)
    requires
        is_connect_run(request, steps),
        steps.len() == 9,
        steps[0].event is Proceed,
        !steps[0].before.known_devices@.is_empty(),
        steps[1].event is ScanStopped,
        steps[1].before.known_devices@.contains_key(request.address@),
        steps[1].before.known_devices@[request.address@] == device,
        steps[2].event == ConnectEvent::<P>::DeviceConnected(false),
        steps[3].event == ConnectEvent::<P>::Watching(task),
        steps[4].event == ConnectEvent::<P>::Attempt(AttemptEvent::DeviceConnected(true)),
        steps[5].event == ConnectEvent::ServicesRead(Ok(first)),
        steps[6].event == ConnectEvent::<P>::ServicesDiscovered(Timed::Finished(Ok(()))),
        steps[7].event == ConnectEvent::ServicesRead(Ok(second)),
        steps[8].event is Announced,
    ensures
        steps[8].next == ConnectOp::<P>::Finished(Ok(())),
        steps[7].after.connection matches Some(conn) && {
            &&& conn.connected_dev == device
            &&& presents_services(conn.services@, second.services@)
            &&& conn.characs@ == second.characs@
            &&& conn.on_disconnect == request.on_disconnect
            &&& conn.device_event_handle == Some(task)
            &&& forall|c: Uuid| !conn.notify_listeners@.contains_key(c)
        },
        steps[7].next == ConnectOp::Announcing(steps[7].before.connection),
        steps[4].after.connected && steps[4].send == Some(true),
{
    assert(steps[0].goes());
    assert(steps[1].goes());
    assert(steps[1].op == steps[0].next);
    assert(steps[2].goes());
    assert(steps[2].op == steps[1].next);
    assert(steps[3].goes());
    assert(steps[3].op == steps[2].next);
    assert(steps[4].goes());
    assert(steps[4].op == steps[3].next);
    assert(steps[5].goes());
    assert(steps[5].op == steps[4].next);
    assert(steps[6].goes());
    assert(steps[6].op == steps[5].next);
    assert(steps[7].goes());
    assert(steps[7].op == steps[6].next);
    assert(steps[8].goes());
    assert(steps[8].op == steps[7].next);
}

/// Without a known device a scan is started before the device is looked up. If the scan cannot be
/// started, connecting fails with its error.
pub proof fn law_connect_scans_if_nothing_is_known<P: Platform>(
    request: ConnectRequest<P>,
    begin: ConnectStep<P>,
    scanned: ConnectStep<P>,
    started: Result<(), Error>,
    scan: DiscoverRequest,
)
    requires
        begin.goes(),
        begin.op == ConnectOp::Requested(request),
        begin.event is Proceed,
        scanned.goes(),
        scanned.op == ConnectOp::Discovering(request),
        scanned.event == ConnectEvent::<P>::Discovered(started),
        call_ensures(ConnectRequest::<P>::scan, (&request,), scan),
    ensures
        begin.before.known_devices@.is_empty() ==> begin.next == ConnectOp::Discovering(request),
        !begin.before.known_devices@.is_empty() ==> begin.next == ConnectOp::StoppingScan(request),
        started is Ok ==> scanned.next == ConnectOp::StoppingScan(request),
        started matches Err(error) ==> scanned.next == ConnectOp::<P>::Finished(Err(error)),
        begin.after == begin.before && scanned.after == scanned.before,
        scan.timeout == 1000,
        scan.filter is NoFilter,
        scan.allow_ibeacons == request.allow_ibeacons,
        !scan.report,
{
}

/// A device that is not connected is attempted, for the first time and from the beginning.
pub proof fn law_unconnected_device_is_attempted<P: Platform>(
    request: ConnectRequest<P>,
    device: Arc<DiscoveredDevice<P>>,
    task: P::Task,
    found: ConnectStep<P>,
    checked: ConnectStep<P>,
    watched: ConnectStep<P>,
)
    requires
        found.goes(),
        found.op == ConnectOp::StoppingScan(request),
        found.event is ScanStopped,
        found.before.known_devices@.contains_key(request.address@),
        found.before.known_devices@[request.address@] == device,
        checked.goes(),
        checked.op == found.next,
        checked.event == ConnectEvent::<P>::DeviceConnected(false),
        watched.goes(),
        watched.op == checked.next,
        watched.event == ConnectEvent::<P>::Watching(task),
    ensures
        watched.next matches ConnectOp::Attempting { target, number, attempt } && {
            &&& target.request == request
            &&& target.device == device
            &&& target.events == task
            &&& number == 0
            &&& attempt is Checking
        },
        watched.after.connecting == Some(device),
        watched.after.connection == watched.before.connection,
{
}

/// An attempt comes to what was answered. A device that says it is connected needs nothing more.
/// Otherwise the adapter is asked, and its failure is the attempt's. After its success the status
/// decides: raised, the attempt has succeeded; not raised, it is waited for, and if it is still not
/// raised then, the attempt has failed.
pub proof fn law_attempt_comes_to_what_was_answered(
    connected: bool,
    attempt: Attempt,
    event: AttemptEvent,
    after: bool,
    next: Attempt,
    send: Option<bool>,
)
    requires
        attempt_goes(connected, attempt, event, after, next, send),
    ensures
        attempt is Checking && event == AttemptEvent::DeviceConnected(true) ==> (next
            matches Attempt::Finished(Ok(_))) && after && send == Some(true),
        attempt is Checking && event == AttemptEvent::DeviceConnected(false) ==> next is Connecting,
        attempt is Connecting ==> (event matches AttemptEvent::AdapterFailed(error) ==> next
            == Attempt::Finished(Err(error))),
        attempt is Connecting ==> (event matches AttemptEvent::Connected(Timed::Finished(Err(m)))
            ==> (next matches Attempt::Finished(Err(Error::Btleplug(text))) && text@ == m@)),
        attempt is Connecting && event == AttemptEvent::Connected(Timed::Elapsed) ==> (next
            matches Attempt::Finished(Err(Error::Timeout(text))) && text@ == "Connect"@),
        attempt is Connecting && event == AttemptEvent::Connected(Timed::Finished(Ok(())))
            && connected ==> (next matches Attempt::Finished(Ok(_))),
        attempt is Connecting && event == AttemptEvent::Connected(Timed::Finished(Ok(())))
            && !connected ==> next is AwaitingEvent,
        attempt is AwaitingEvent && event is StatusSent && connected ==> (next
            matches Attempt::Finished(Ok(_))),
        attempt is AwaitingEvent && event is StatusSent && !connected ==> next == Attempt::Finished(
            Err(Error::ConnectionFailed),
        ),
        !(attempt is Checking && event == AttemptEvent::DeviceConnected(true)) ==> after == connected
            && send is None,
{
}

/// An attempt moves as it is said to, and touches nothing but the status.
pub proof fn law_attempt_moves_as_said<P: Platform>(
    handler: &mut Handler<P>,
    attempt: Attempt,
    event: AttemptEvent,
    result: (Attempt, Option<bool>),
)
    requires
        call_ensures(Handler::<P>::connect_internal, (handler, attempt, event), result),
    ensures
        attempt_goes(
            old(handler).connected,
            attempt,
            event,
            final(handler).connected,
            result.0,
            result.1,
        ),
        *final(handler) == (Handler { connected: final(handler).connected, ..*old(handler) }),
{
}

/// Connecting moves as it is said to.
pub proof fn law_connecting_moves_as_said<P: Platform>(
    handler: &mut Handler<P>,
    op: ConnectOp<P>,
    event: ConnectEvent<P>,
    result: (ConnectOp<P>, Option<bool>),
)
    requires
        call_ensures(Handler::<P>::connect, (handler, op, event), result),
    ensures
        connect_goes(*old(handler), op, event, *final(handler), result.0, result.1),
{
}

/// Connecting follows its attempts: it goes on with the attempt that was made of the answer, reads the
/// services once an attempt has succeeded, pauses after a first and a second failure whatever it was,
/// and ends with the failure of the third.
pub proof fn law_connect_follows_its_attempts<P: Platform>(
    step: ConnectStep<P>,
    target: ConnectTarget<P>,
    number: u8,
    attempt: Attempt,
    answer: AttemptEvent,
) -> (outcome: (bool, Attempt, Option<bool>))
    requires
        step.goes(),
        step.op == (ConnectOp::Attempting { target, number, attempt }),
        step.event == ConnectEvent::<P>::Attempt(answer),
        number < 3,
    ensures
        attempt_goes(
            step.before.connected,
            attempt,
            answer,
            outcome.0,
            outcome.1,
            outcome.2,
        ),
        outcome.1 matches Attempt::Finished(Ok(_)) ==> step.next == ConnectOp::Reading(target)
            && step.after.connected == outcome.0 && step.send == outcome.2,
        outcome.1 matches Attempt::Finished(Err(error)) ==> {
            &&& number < 2 ==> step.next == (ConnectOp::Pausing { target, number })
                && step.after.connected == outcome.0
            &&& number == 2 ==> step.next == ConnectOp::<P>::Finished(Err(error))
                && !step.after.connected && step.send == Some(false)
        },
        outcome.1 !is Finished ==> step.next == (ConnectOp::Attempting {
            target,
            number,
            attempt: outcome.1,
        }),
        step.after.connection == step.before.connection,
        step.after.known_devices == step.before.known_devices,
{
    let (connected, moved, told) = choose|connected: bool, moved: Attempt, told: Option<bool>|
        #![trigger attempt_goes(step.before.connected, attempt, answer, connected, moved, told)]
        attempt_goes(step.before.connected, attempt, answer, connected, moved, told)
            && after_attempt(
            target,
            number,
            moved,
            connected,
            told,
            step.after.connected,
            step.next,
            step.send,
        );
    (connected, moved, told)
}

/// After a pause the same device is attempted again, from the beginning.
pub proof fn law_pause_is_followed_by_another_attempt<P: Platform>(
    request: ConnectRequest<P>,
    steps: Seq<ConnectStep<P>>,
)
    requires
        is_connect_run(request, steps),
        steps.last().op is Pausing,
        steps.last().event is Paused,
    ensures
        steps.last().op matches ConnectOp::Pausing { target, number } && (steps.last().next
            matches ConnectOp::Attempting { target: again, number: next, attempt } && again == target
            && next == number + 1 && attempt is Checking),
        steps.last().after == steps.last().before,
        steps.last().send is None,
{
    assert(steps[steps.len() - 1].goes());
    if steps.len() > 1 {
        lemma_run_without_last_step(request, steps);
        lemma_attempts_fit(request, steps.drop_last());
    }
}

/// What goes wrong after the attempts ends connecting with just that: services that cannot be read
/// with the backend's error, services that cannot be discovered with that or with a timeout. The
/// connection is not touched.
pub proof fn law_failure_after_the_attempts_is_told<P: Platform>(
    step: ConnectStep<P>,
    target: ConnectTarget<P>,
)
    requires
        step.goes(),
        step.op == ConnectOp::Reading(target) || (step.op matches ConnectOp::DiscoveringServices(
            t,
            _,
        ) && t == target) || (step.op matches ConnectOp::Rereading(t, _) && t == target),
    ensures
        step.op !is DiscoveringServices ==> (step.event matches ConnectEvent::ServicesRead(
            Err(message),
        ) ==> (step.next matches ConnectOp::Finished(Err(Error::Btleplug(text))) && text@
            == message@) && step.after == step.before),
        step.op is DiscoveringServices ==> (step.event matches ConnectEvent::ServicesDiscovered(
            Timed::Finished(Err(message)),
        ) ==> (step.next matches ConnectOp::Finished(Err(Error::Btleplug(text))) && text@
            == message@) && step.after == step.before),
        step.op is DiscoveringServices && step.event == ConnectEvent::<P>::ServicesDiscovered(
            Timed::Elapsed,
        ) ==> (step.next matches ConnectOp::Finished(Err(Error::Timeout(text))) && text@
            == "discover services"@) && step.after == step.before,
{
}

/// All other connecting waits from the moment when the device is found until connecting is over; all
/// other commands wait while the adapter connects the device and while its services are discovered and
/// read again. The listeners are told that a device is connected once it is in place.
pub proof fn law_connect_keeps_others_waiting<P: Platform>(
    op: ConnectOp<P>,
    connection_lock: bool,
    command_lock: bool,
    status: Option<bool>,
)
    requires
        call_ensures(ConnectOp::<P>::needs_connection_lock, (&op,), connection_lock),
        call_ensures(ConnectOp::<P>::needs_command_lock, (&op,), command_lock),
        call_ensures(ConnectOp::<P>::announcement, (&op,), status),
    ensures
        connection_lock <==> op is Checking || op is Watching || op is Attempting || op is Pausing
            || op is Reading || op is DiscoveringServices || op is Rereading || op is Announcing,
        command_lock <==> (op matches ConnectOp::Attempting { attempt: Attempt::Connecting, .. })
            || op is DiscoveringServices || op is Rereading,
        status == if op is Announcing {
            Some(true)
        } else {
            None
        },
{
}

} // verus!
