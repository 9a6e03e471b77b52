//! Disconnecting, and what happens when a device connects or disconnects.
use vstd::prelude::*;

use std::sync::Arc;

use crate::connect::{ConnectOp, ConnectStep, ConnectTarget};
use crate::connection::Connection;
use crate::error::{Error, ErrorView, fails_with};
use crate::event_handlers::OnDisconnectHandler;
use crate::handler::Handler;
use crate::models::DiscoveredDevice;
use crate::platform::Platform;

verus! {

/// How far the disconnecting of the connected device has come.
pub enum DisconnectOp<P: Platform> {
    /// Nothing has happened yet.
    Requested,
    /// Wait until no other connecting or disconnecting is under way, then ask the device whether
    /// it is connected.
    Checking(Arc<DiscoveredDevice<P>>),
    /// Have the adapter disconnect the device. From here on the statuses that are sent to the
    /// watchers count.
    Disconnecting(Arc<DiscoveredDevice<P>>),
    /// Wait for the next status that is sent to the watchers.
    AwaitingEvent,
    /// All is done.
    Finished(Result<(), Error>),
}

/// An answer to what a [`DisconnectOp`] asks for.
#[derive(Debug)]
pub enum DisconnectEvent {
    /// Begin.
    Proceed,
    /// Whether the device is connected.
    DeviceConnected(bool),
    /// There is no adapter to disconnect the device with.
    AdapterFailed(Error),
    /// The adapter has disconnected the device, or failed to.
    Disconnected(Result<(), String>),
    /// A connection status was sent to the watchers.
    StatusSent,
}

/// Disconnecting goes from `op` to `next` on `event`, in the state `handler`. The device must
/// still be connected; after the adapter has disconnected it, the next status that is sent
/// decides. An event that answers something else changes nothing.
pub open spec fn disconnect_goes<P: Platform>(
    handler: Handler<P>,
    op: DisconnectOp<P>,
    event: DisconnectEvent,
    next: DisconnectOp<P>,
) -> bool {
    match (op, event) {
        (DisconnectOp::Requested, DisconnectEvent::Proceed) => match handler.connection {
            Some(conn) => next == DisconnectOp::Checking(conn.connected_dev),
            None => next == DisconnectOp::<P>::Finished(Err(Error::NoDeviceConnected)),
        },
        (DisconnectOp::Checking(device), DisconnectEvent::DeviceConnected(connected)) => if connected {
            next == DisconnectOp::Disconnecting(device)
        } else {
            next == DisconnectOp::<P>::Finished(Err(Error::NoDeviceConnected))
        },
        (DisconnectOp::Disconnecting(_), DisconnectEvent::AdapterFailed(error)) => next
            == DisconnectOp::<P>::Finished(Err(error)),
        (DisconnectOp::Disconnecting(_), DisconnectEvent::Disconnected(result)) => match result {
            Ok(()) => next == DisconnectOp::<P>::AwaitingEvent,
            Err(message) => next matches DisconnectOp::Finished(r) && fails_with(
                r,
                ErrorView::Btleplug(message@),
            ),
        },
        (DisconnectOp::AwaitingEvent, DisconnectEvent::StatusSent) => if handler.connected {
            next == DisconnectOp::<P>::Finished(Err(Error::DisconnectFailed))
        } else {
            next == DisconnectOp::<P>::Finished(Ok(()))
        },
        _ => next == op,
    }
}

impl<P: Platform> DisconnectOp<P> {
    /// Whether all other connecting and disconnecting has to wait.
    pub fn needs_connection_lock(&self) -> (needed: bool)
        ensures
            needed == !(*self is Requested || *self is Finished),
    {
        match self {
            DisconnectOp::Requested | DisconnectOp::Finished(_) => false,
            _ => true,
        }
    }
}

/// How far the handling of a disconnect event has come.
#[verifier::reject_recursive_types(P)]
pub enum DisconnectedOp<P: Platform> {
    /// A device with this address has disconnected.
    Received(String),
    /// The connection is taken down: run its disconnect callback.
    RunningCallback(Connection<P>),
    /// Tell the listeners for connection updates that no device is connected.
    Announcing(Connection<P>),
    /// All is done. The tasks of the connection that is gone, if there was one, are to be aborted.
    Finished(Option<Connection<P>>),
}

/// An answer to what a [`DisconnectedOp`] asks for.
#[derive(Debug)]
pub enum DisconnectedEvent {
    /// Begin.
    Proceed,
    /// The disconnect callback has run.
    CallbackRun,
    /// The listeners for connection updates have been told.
    Announced,
}

/// The handling of a disconnect event goes from `op` to `next` on `event`, while the handler goes
/// from `before` to `after`; `send` is what to send to the watchers. The event counts only if it
/// is about the connected device. Then the connection is taken away, and once callback and
/// listeners have been called the status becomes not connected. An event that answers something
/// else changes nothing.
pub open spec fn disconnected_goes<P: Platform>(
    before: Handler<P>,
    op: DisconnectedOp<P>,
    event: DisconnectedEvent,
    after: Handler<P>,
    next: DisconnectedOp<P>,
    send: Option<bool>,
) -> bool {
    match (op, event) {
        (DisconnectedOp::Received(address), DisconnectedEvent::Proceed) => {
            &&& send is None
            &&& if before.connected_address() == Some(address@) {
                &&& after == (Handler { connection: None, ..before })
                &&& next == DisconnectedOp::RunningCallback(before.connection->0)
            } else {
                &&& after == before
                &&& next == DisconnectedOp::<P>::Finished(None)
            }
        },
        (DisconnectedOp::RunningCallback(conn), DisconnectedEvent::CallbackRun) => {
            &&& after == before
            &&& send is None
            &&& next == DisconnectedOp::Announcing(conn)
        },
        (DisconnectedOp::Announcing(conn), DisconnectedEvent::Announced) => {
            &&& after == (Handler { connected: false, ..before })
            &&& send == Some(false)
            &&& next == DisconnectedOp::Finished(Some(conn))
        },
        _ => after == before && send is None && next == op,
    }
}

impl<P: Platform> DisconnectedOp<P> {
    /// The status to tell the listeners for connection updates, if it is time to.
    pub fn announcement(&self) -> (status: Option<bool>)
        ensures
            status == if *self is Announcing {
                Some(false)
            } else {
                None
            },
    {
        match self {
            DisconnectedOp::Announcing(_) => Some(false),
            _ => None,
        }
    }

    /// The callback to run, while it is its turn. It is handed out once: then nothing is left in
    /// its place.
    pub fn take_callback(&mut self) -> (callback: OnDisconnectHandler<
        P::SyncCallback,
        P::AsyncCallback,
    >)
        ensures
            match *old(self) {
                DisconnectedOp::RunningCallback(conn) => {
                    &&& callback == conn.on_disconnect
                    &&& *final(self) == DisconnectedOp::RunningCallback(
                        Connection { on_disconnect: OnDisconnectHandler::NoHandler, ..conn },
                    )
                },
                _ => {
                    &&& callback is NoHandler
                    &&& *final(self) == *old(self)
                },
            },
    {
        match self {
            DisconnectedOp::RunningCallback(conn) => conn.on_disconnect.take(),
            _ => OnDisconnectHandler::NoHandler,
        }
    }
}

/// A connection event of a device.
#[derive(Debug, Clone, Copy, PartialEq, Eq, Structural)]
pub enum ConnectionEvent {
    Disconnected,
    Connected,
}

/// What the task that follows the connection events of a device does next.
#[derive(Debug)]
pub enum EventTask {
    /// Open the stream of connection events.
    Opening,
    /// Wait for the next event.
    Listening,
    /// Handle the event that came.
    Handling(ConnectionEvent),
    /// The stream has ended or could not be opened.
    Ended,
}

/// An answer to what an [`EventTask`] asks for.
#[derive(Debug)]
pub enum EventTaskEvent {
    /// The stream was opened, or could not be.
    Opened(Result<(), String>),
    /// The next event, if the stream has not ended.
    Next(Option<ConnectionEvent>),
    /// The event has been handled.
    Handled,
}

/// Moves the task that follows the connection events of a device on by one answer. Every event
/// of the stream is handled before the next one is taken. An answer to something else changes
/// nothing.
pub fn connection_event_handler(task: EventTask, event: EventTaskEvent) -> (next: EventTask)
    ensures
        match (task, event) {
            (EventTask::Opening, EventTaskEvent::Opened(Ok(()))) => next == EventTask::Listening,
            (EventTask::Opening, EventTaskEvent::Opened(Err(_))) => next == EventTask::Ended,
            (EventTask::Listening, EventTaskEvent::Next(Some(e))) => next == EventTask::Handling(e),
            (EventTask::Listening, EventTaskEvent::Next(None)) => next == EventTask::Ended,
            (EventTask::Handling(_), EventTaskEvent::Handled) => next == EventTask::Listening,
            _ => next == task,
        },
{
    match (task, event) {
        (EventTask::Opening, EventTaskEvent::Opened(opened)) => match opened {
            Ok(()) => EventTask::Listening,
            Err(_) => EventTask::Ended,
        },
        (EventTask::Listening, EventTaskEvent::Next(item)) => match item {
            Some(e) => EventTask::Handling(e),
            None => EventTask::Ended,
        },
        (EventTask::Handling(_), EventTaskEvent::Handled) => EventTask::Listening,
        (task, _) => task,
    }
}

impl<P: Platform> Handler<P> {
    /// Moves the disconnecting of the connected device on by one answer. A device that is
    /// connected while the status says otherwise is a defect of the caller.
    pub fn disconnect(&self, op: DisconnectOp<P>, event: DisconnectEvent) -> (next: DisconnectOp<P>)
        requires
            op is Checking && event == DisconnectEvent::DeviceConnected(true) ==> self.connected,
        ensures
            disconnect_goes(*self, op, event, next),
    {
        match (op, event) {
            (
                DisconnectOp::Requested,
                DisconnectEvent::Proceed,
            ) => match self.require_connected_device() {
                Ok(device) => DisconnectOp::Checking(device),
                Err(_) => DisconnectOp::Finished(Err(Error::NoDeviceConnected)),
            },
            (DisconnectOp::Checking(device), DisconnectEvent::DeviceConnected(connected)) => {
                if connected {
                    DisconnectOp::Disconnecting(device)
                } else {
                    DisconnectOp::Finished(Err(Error::NoDeviceConnected))
                }
            },
            (DisconnectOp::Disconnecting(_), DisconnectEvent::AdapterFailed(error)) => {
                DisconnectOp::Finished(Err(error))
            },
            (
                DisconnectOp::Disconnecting(_),
                DisconnectEvent::Disconnected(result),
            ) => match result {
                Ok(()) => DisconnectOp::AwaitingEvent,
                Err(message) => DisconnectOp::Finished(Err(Error::Btleplug(message))),
            },
            (DisconnectOp::AwaitingEvent, DisconnectEvent::StatusSent) => {
                if self.connected {
                    DisconnectOp::Finished(Err(Error::DisconnectFailed))
                } else {
                    DisconnectOp::Finished(Ok(()))
                }
            },
            (op, _) => op,
        }
    }

    /// Handles a connection event of the device `peripheral_id`. A connect event is handled at
    /// once, and the second result is what to send to the watchers. For a disconnect event the
    /// first result is its handling, which is yet to begin.
    pub fn handle_event(&mut self, event: ConnectionEvent, peripheral_id: &str) -> (result: (
        Option<DisconnectedOp<P>>,
        Option<bool>,
    ))
        ensures
            match event {
                ConnectionEvent::Connected => {
                    &&& result.0 is None
                    &&& old(self).connect_event_goes(peripheral_id@, *final(self), result.1)
                },
                ConnectionEvent::Disconnected => {
                    &&& result.0 matches Some(DisconnectedOp::Received(address)) && address@
                        == peripheral_id@
                    &&& result.1 is None
                    &&& *final(self) == *old(self)
                },
            },
    {
        match event {
            ConnectionEvent::Connected => (None, self.handle_connect(peripheral_id)),
            ConnectionEvent::Disconnected => {
                (Some(DisconnectedOp::Received(peripheral_id.to_owned())), None)
            },
        }
    }

    /// Moves the handling of a disconnect event on by one answer: clears the connection, calls
    /// the disconnect callback and updates the status. The second result is what to send to the
    /// watchers.
    pub fn handle_disconnect(&mut self, op: DisconnectedOp<P>, event: DisconnectedEvent) -> (result:
        (DisconnectedOp<P>, Option<bool>))
        ensures
            disconnected_goes(*old(self), op, event, *final(self), result.0, result.1),
    {
        match (op, event) {
            (DisconnectedOp::Received(address), DisconnectedEvent::Proceed) => {
                if !self.is_connected_to(address.as_str()) {
                    return (DisconnectedOp::Finished(None), None);
                }
                match self.connection.take() {
                    Some(conn) => (DisconnectedOp::RunningCallback(conn), None),
                    None => (DisconnectedOp::Finished(None), None),
                }
            },
            (DisconnectedOp::RunningCallback(conn), DisconnectedEvent::CallbackRun) => {
                (DisconnectedOp::Announcing(conn), None)
            },
            (DisconnectedOp::Announcing(conn), DisconnectedEvent::Announced) => {
                self.connected = false;
                (DisconnectedOp::Finished(Some(conn)), Some(false))
            },
            (op, _) => (op, None),
        }
    }
}

/// The callback that was registered with a connection runs when its device disconnects: as long as
/// the connection is in place, a disconnect event of its device takes it away and brings up that
/// callback.
pub proof fn law_disconnect_runs_the_registered_callback<P: Platform>(
    connecting: ConnectStep<P>,
    target: ConnectTarget<P>,
    before: Handler<P>,
    address: String,
    after: Handler<P>,
    next: DisconnectedOp<P>,
    send: Option<bool>,
)
    requires
        connecting.goes(),
        connecting.installs(),
        connecting.op matches ConnectOp::Rereading(t, conn) && t == target && conn.connected_dev
            == target.device,
        before.connection == connecting.after.connection,
        address@ == target.device.id@,
        disconnected_goes(
            before,
            DisconnectedOp::Received(address),
            DisconnectedEvent::Proceed,
            after,
            next,
            send,
        ),
    ensures
        after.connection is None,
        next matches DisconnectedOp::RunningCallback(conn) && conn.on_disconnect
            == target.request.on_disconnect,
{
}

/// A disconnect event takes effect once: until another connection is in place, a second event of
/// the same device changes nothing and runs no callback.
pub proof fn law_second_disconnect_event_is_ignored<P: Platform>(
    before: Handler<P>,
    address: String,
    after: Handler<P>,
    next: DisconnectedOp<P>,
    send: Option<bool>,
    later: Handler<P>,
    again: DisconnectedOp<P>,
    send_again: Option<bool>,
)
    requires
        disconnected_goes(
            before,
            DisconnectedOp::Received(address),
            DisconnectedEvent::Proceed,
            after,
            next,
            send,
        ),
        disconnected_goes(
            after,
            DisconnectedOp::Received(address),
            DisconnectedEvent::Proceed,
            later,
            again,
            send_again,
        ),
    ensures
        later == after,
        again == DisconnectedOp::<P>::Finished(None),
        send_again is None,
{
}

/// A whole disconnect of the connected device leaves no connection and the status not connected,
/// if nothing else changes the handler meanwhile, and everything else as it was. The watchers are
/// told once, at the end.
pub proof fn law_disconnect_event_undoes_the_connection<P: Platform>(
    h0: Handler<P>,
    address: String,
    h1: Handler<P>,
    op1: DisconnectedOp<P>,
    send1: Option<bool>,
    h2: Handler<P>,
    op2: DisconnectedOp<P>,
    send2: Option<bool>,
    h3: Handler<P>,
    op3: DisconnectedOp<P>,
    send3: Option<bool>,
)
    requires
        h0.connected_address() == Some(address@),
        disconnected_goes(
            h0,
            DisconnectedOp::Received(address),
            DisconnectedEvent::Proceed,
            h1,
            op1,
            send1,
        ),
        disconnected_goes(h1, op1, DisconnectedEvent::CallbackRun, h2, op2, send2),
        disconnected_goes(h2, op2, DisconnectedEvent::Announced, h3, op3, send3),
    ensures
        h3 == (Handler { connection: None, connected: false, ..h0 }),
        op3 == DisconnectedOp::Finished(h0.connection),
        send1 is None && send2 is None && send3 == Some(false),
{
}

/// Without a connected device there is nothing to disconnect.
pub proof fn law_disconnect_needs_a_connection<P: Platform>(
    handler: Handler<P>,
    next: DisconnectOp<P>,
)
    requires
        handler.connection is None,
        disconnect_goes(handler, DisconnectOp::Requested, DisconnectEvent::Proceed, next),
    ensures
        next == DisconnectOp::<P>::Finished(Err(Error::NoDeviceConnected)),
{
}

/// Disconnecting waits for the disconnect event: when the event has been handled, the disconnecting
/// that waits for it succeeds.
pub proof fn law_disconnect_event_completes_the_disconnect<P: Platform>(
    before: Handler<P>,
    conn: Connection<P>,
    after: Handler<P>,
    handled: DisconnectedOp<P>,
    send: Option<bool>,
    next: DisconnectOp<P>,
)
    requires
        disconnected_goes(
            before,
            DisconnectedOp::Announcing(conn),
            DisconnectedEvent::Announced,
            after,
            handled,
            send,
        ),
        disconnect_goes(after, DisconnectOp::AwaitingEvent, DisconnectEvent::StatusSent, next),
    ensures
        send == Some(false),
        next == DisconnectOp::<P>::Finished(Ok(())),
{
}

/// Disconnecting succeeds only when the status is not connected.
pub proof fn law_disconnected_means_not_connected<P: Platform>(
    handler: Handler<P>,
    op: DisconnectOp<P>,
    event: DisconnectEvent,
    next: DisconnectOp<P>,
)
    requires
        disconnect_goes(handler, op, event, next),
        op !is Finished,
        next == DisconnectOp::<P>::Finished(Ok(())),
    ensures
        !handler.connected,
{
}

/// A disconnect that is under way, and the handling of the disconnect event of its device.
#[verifier::reject_recursive_types(P)]
pub struct DisconnectState<P: Platform> {
    pub handler: Handler<P>,
    pub op: DisconnectOp<P>,
    /// The handling of the last disconnect event, if there was one.
    pub handling: Option<DisconnectedOp<P>>,
}

/// What can happen while a disconnect is under way.
pub enum DisconnectAction {
    /// The disconnect gets an answer.
    Answer(DisconnectEvent),
    /// A connect event of the device is handled.
    DeviceConnects,
    /// A disconnect event of the device arrives. The last one has been handled.
    DeviceDisconnects,
    /// The handling of the disconnect event gets an answer.
    Handle(DisconnectedEvent),
    /// The disconnect callback is taken out to be run.
    TakeCallback,
}

/// One step of a disconnect or of the handling of its device's events.
#[verifier::reject_recursive_types(P)]
pub struct DisconnectStep<P: Platform> {
    pub before: DisconnectState<P>,
    pub action: DisconnectAction,
    pub after: DisconnectState<P>,
}

impl<P: Platform> DisconnectStep<P> {
    /// The step is one that can be taken while the device with this address is disconnected.
    pub open spec fn goes(self, address: Seq<char>) -> bool {
        let (before, after) = (self.before, self.after);
        match self.action {
            DisconnectAction::Answer(event) => {
                &&& before.op is Checking && event == DisconnectEvent::DeviceConnected(true)
                    ==> before.handler.connected
                &&& disconnect_goes(before.handler, before.op, event, after.op)
                &&& after.handler == before.handler
                &&& after.handling == before.handling
            },
            DisconnectAction::DeviceConnects => {
                &&& exists|send: Option<bool>| #[trigger]
                    before.handler.connect_event_goes(address, after.handler, send)
                &&& after.op == before.op
                &&& after.handling == before.handling
            },
            DisconnectAction::DeviceDisconnects => {
                &&& before.handling is None || before.handling->0 is Finished
                &&& after.handling matches Some(DisconnectedOp::Received(a)) && a@ == address
                &&& after.handler == before.handler
                &&& after.op == before.op
            },
            DisconnectAction::Handle(event) => match (before.handling, after.handling) {
                (Some(op), Some(next)) => {
                    &&& exists|send: Option<bool>| #[trigger]
                        disconnected_goes(before.handler, op, event, after.handler, next, send)
                    &&& after.op == before.op
                },
                _ => false,
            },
            DisconnectAction::TakeCallback => {
                &&& before.handling matches Some(DisconnectedOp::RunningCallback(conn))
                    && after.handling == Some(
                    DisconnectedOp::RunningCallback(
                        Connection { on_disconnect: OnDisconnectHandler::NoHandler, ..conn },
                    ),
                )
                &&& after.handler == before.handler
                &&& after.op == before.op
            },
        }
    }

    /// In this step the adapter has disconnected a device, or failed to.
    pub open spec fn disconnects(self) -> bool {
        self.before.op is Disconnecting && (self.action matches DisconnectAction::Answer(event)
            && event is Disconnected)
    }
}

/// `steps` are the steps of disconnecting the device of `conn`, from the beginning, and of handling
/// that device's events. Nothing else happens to the handler.
pub open spec fn is_disconnect_run<P: Platform>(
    conn: Connection<P>,
    steps: Seq<DisconnectStep<P>>,
) -> bool {
    &&& steps.len() > 0
    &&& steps[0].before.op is Requested
    &&& steps[0].before.handling is None
    &&& steps[0].before.handler.connection == Some(conn)
    &&& steps[0].before.handler.connecting is None
    &&& forall|i: int|
        0 <= i < steps.len() ==> #[trigger] steps[i].goes(conn.connected_dev.id@)
    &&& forall|i: int|
        #![trigger steps[i]]
        0 < i < steps.len() ==> steps[i].before == steps[i - 1].after
}

/// How often the adapter was asked to disconnect a device in `steps`.
pub open spec fn disconnect_calls<P: Platform>(steps: Seq<DisconnectStep<P>>) -> nat
    decreases steps.len(),
{
    if steps.len() == 0 {
        0
    } else {
        disconnect_calls(steps.drop_last()) + if steps.last().disconnects() {
            1nat
        } else {
            0nat
        }
    }
}

/// What holds of the state of a disconnect in which the adapter was asked `calls` times.
spec fn disconnect_fits<P: Platform>(
    conn: Connection<P>,
    state: DisconnectState<P>,
    calls: nat,
) -> bool {
    let handler = state.handler;
    &&& handler.connecting is None
    &&& handler.connection is Some ==> handler.connection == Some(conn)
    &&& state.handling matches Some(DisconnectedOp::RunningCallback(_)) ==> handler.connection is None
    &&& state.handling matches Some(DisconnectedOp::Announcing(_)) ==> handler.connection is None
    &&& match state.op {
        DisconnectOp::Requested => calls == 0,
        DisconnectOp::Checking(device) => calls == 0 && device == conn.connected_dev,
        DisconnectOp::Disconnecting(device) => {
            &&& calls == 0
            &&& device == conn.connected_dev
            &&& handler.connection is Some ==> handler.connected
        },
        DisconnectOp::AwaitingEvent => {
            &&& calls == 1
            &&& handler.connection is Some ==> handler.connected
        },
        DisconnectOp::Finished(Ok(())) => {
            &&& calls == 1
            &&& handler.connection is None
            &&& !handler.connected
        },
        DisconnectOp::Finished(Err(_)) => calls <= 1,
    }
}

proof fn lemma_disconnect_fits<P: Platform>(conn: Connection<P>, steps: Seq<DisconnectStep<P>>)
    requires
        is_disconnect_run(conn, steps),
    ensures
        disconnect_fits(conn, steps.last().after, disconnect_calls(steps)),
        forall|i: int|
            #![trigger steps[i]]
            0 <= i < steps.len() && steps[i].disconnects() ==> steps[i].before.op
                == DisconnectOp::Disconnecting(conn.connected_dev),
    decreases steps.len(),
{
    let last = steps[steps.len() - 1];
    let init = steps.drop_last();
    assert(last.goes(conn.connected_dev.id@));
    if steps.len() == 1 {
        assert(disconnect_calls(init) == 0);
        assert(disconnect_fits(conn, last.before, 0));
    } else {
        assert forall|i: int| 0 <= i < init.len() implies #[trigger] init[i].goes(
            conn.connected_dev.id@,
        ) by {
            assert(steps[i].goes(conn.connected_dev.id@));
        }
        assert forall|i: int| #![trigger init[i]] 0 < i < init.len() implies init[i].before
            == init[i - 1].after by {
            assert(steps[i].before == steps[i - 1].after);
        }
        lemma_disconnect_fits(conn, init);
        assert(last.before == steps[steps.len() - 2].after);
        assert forall|i: int|
            #![trigger steps[i]]
            0 <= i < init.len() && steps[i].disconnects() implies steps[i].before.op
            == DisconnectOp::Disconnecting(conn.connected_dev) by {
            assert(steps[i] == init[i]);
        }
    }
    assert(disconnect_fits(conn, last.before, disconnect_calls(init)));
}

/// A disconnect that succeeds has asked the adapter exactly once, for the device of the connection,
/// and has seen the disconnect event of that device handled: the status is not connected, and there
/// is no connected device any more.
pub proof fn law_disconnect_ends_the_connection<P: Platform>(
    conn: Connection<P>,
    steps: Seq<DisconnectStep<P>>,
    found: Result<Arc<DiscoveredDevice<P>>, Error>,
)
    requires
        is_disconnect_run(conn, steps),
        steps.last().after.op == DisconnectOp::<P>::Finished(Ok(())),
        steps.last().after.handler.finds_connected_device(found),
    ensures
        disconnect_calls(steps) == 1,
        forall|i: int|
            #![trigger steps[i]]
            0 <= i < steps.len() && steps[i].disconnects() ==> steps[i].before.op
                == DisconnectOp::Disconnecting(conn.connected_dev),
        steps.last().after.handler.connection is None,
        !steps.last().after.handler.connected,
        fails_with(found, ErrorView::NoDeviceConnected),
{
    lemma_disconnect_fits(conn, steps);
}

/// Disconnecting comes to what was answered. It asks the device of the connection; one that is not
/// connected cannot be disconnected; what the adapter says counts; and after its success the status
/// decides.
pub proof fn law_disconnect_comes_to_what_was_answered<P: Platform>(
    handler: Handler<P>,
    op: DisconnectOp<P>,
    event: DisconnectEvent,
    next: DisconnectOp<P>,
    device: Arc<DiscoveredDevice<P>>,
)
    requires
        disconnect_goes(handler, op, event, next),
    ensures
        op is Requested && event is Proceed ==> (handler.connection matches Some(conn) ==> next
            == DisconnectOp::Checking(conn.connected_dev)),
        op is Requested && event is Proceed && handler.connection is None ==> next
            == DisconnectOp::<P>::Finished(Err(Error::NoDeviceConnected)),
        op == DisconnectOp::Checking(device) && event == DisconnectEvent::DeviceConnected(true)
            ==> next == DisconnectOp::Disconnecting(device),
        op == DisconnectOp::Checking(device) && event == DisconnectEvent::DeviceConnected(false)
            ==> next == DisconnectOp::<P>::Finished(Err(Error::NoDeviceConnected)),
        op is Disconnecting ==> (event matches DisconnectEvent::AdapterFailed(error) ==> next
            == DisconnectOp::<P>::Finished(Err(error))),
        op is Disconnecting ==> (event matches DisconnectEvent::Disconnected(Err(message)) ==> (next
            matches DisconnectOp::Finished(Err(Error::Btleplug(text))) && text@ == message@)),
        op is Disconnecting ==> (event matches DisconnectEvent::Disconnected(Ok(_)) ==> next
            is AwaitingEvent),
        op is AwaitingEvent && event is StatusSent && handler.connected ==> next
            == DisconnectOp::<P>::Finished(Err(Error::DisconnectFailed)),
        op is AwaitingEvent && event is StatusSent && !handler.connected ==> (next
            matches DisconnectOp::Finished(Ok(_))),
{
}

/// Disconnecting moves as it is said to, and the handling of a disconnect event too.
pub proof fn law_disconnecting_moves_as_said<P: Platform>(
    handler: Handler<P>,
    op: DisconnectOp<P>,
    event: DisconnectEvent,
    next: DisconnectOp<P>,
    handling: &mut Handler<P>,
    received: DisconnectedOp<P>,
    answer: DisconnectedEvent,
    result: (DisconnectedOp<P>, Option<bool>),
)
    requires
        call_ensures(Handler::<P>::disconnect, (&handler, op, event), next),
        call_ensures(Handler::<P>::handle_disconnect, (handling, received, answer), result),
    ensures
        disconnect_goes(handler, op, event, next),
        disconnected_goes(
            *old(handling),
            received,
            answer,
            *final(handling),
            result.0,
            result.1,
        ),
{
}

/// A disconnect event of any device but that of the connection changes nothing and tells no one.
pub proof fn law_disconnect_event_of_another_device_is_ignored<P: Platform>(
    before: Handler<P>,
    address: String,
    after: Handler<P>,
    next: DisconnectedOp<P>,
    send: Option<bool>,
)
    requires
        before.connection matches Some(conn) ==> conn.connected_dev.id@ != address@,
        disconnected_goes(
            before,
            DisconnectedOp::Received(address),
            DisconnectedEvent::Proceed,
            after,
            next,
            send,
        ),
    ensures
        after == before,
        next == DisconnectedOp::<P>::Finished(None),
        send is None,
{
}

/// A disconnect event of the connected device takes the connection away at once, has its callback run,
/// then the listeners told, and then the status lowered; the connection that is gone is handed out at
/// the end. What else happens to the handler between two answers is kept.
pub proof fn law_disconnect_event_is_handled_in_order<P: Platform>(
    h: Seq<Handler<P>>,
    conn: Connection<P>,
    address: String,
    op1: DisconnectedOp<P>,
    op2: DisconnectedOp<P>,
    op3: DisconnectedOp<P>,
    send1: Option<bool>,
    send2: Option<bool>,
    send3: Option<bool>,
)
    requires
        h.len() == 6,
        h[0].connection == Some(conn),
        conn.connected_dev.id@ == address@,
        disconnected_goes(
            h[0],
            DisconnectedOp::Received(address),
            DisconnectedEvent::Proceed,
            h[1],
            op1,
            send1,
        ),
        disconnected_goes(h[2], op1, DisconnectedEvent::CallbackRun, h[3], op2, send2),
        disconnected_goes(h[4], op2, DisconnectedEvent::Announced, h[5], op3, send3),
    ensures
        h[1] == (Handler { connection: None, ..h[0] }),
        op1 == DisconnectedOp::RunningCallback(conn),
        h[3] == h[2],
        op2 == DisconnectedOp::Announcing(conn),
        h[5] == (Handler { connected: false, ..h[4] }),
        op3 == DisconnectedOp::Finished(Some(conn)),
        send1 is None && send2 is None && send3 == Some(false),
{
}

/// The callback of the connection is handed out once, when it is its turn, and the listeners for
/// connection updates are told that no device is connected when it is theirs.
pub proof fn law_callback_is_handed_out_once<P: Platform>(
    op: &mut DisconnectedOp<P>,
    callback: OnDisconnectHandler<P::SyncCallback, P::AsyncCallback>,
    stage: DisconnectedOp<P>,
    status: Option<bool>,
)
    requires
        call_ensures(DisconnectedOp::<P>::take_callback, (op,), callback),
        call_ensures(DisconnectedOp::<P>::announcement, (&stage,), status),
    ensures
        *old(op) matches DisconnectedOp::RunningCallback(conn) ==> {
            &&& callback == conn.on_disconnect
            &&& *final(op) matches DisconnectedOp::RunningCallback(after) && {
                &&& after.on_disconnect is NoHandler
                &&& after.notify_listeners == conn.notify_listeners
                &&& after.device_event_handle == conn.device_event_handle
                &&& after.connected_dev == conn.connected_dev
            }
        },
        *old(op) !is RunningCallback ==> callback is NoHandler && *final(op) == *old(op),
        status == if stage is Announcing {
            Some(false)
        } else {
            None
        },
{
}

/// All other connecting waits while a device is disconnected.
pub proof fn law_disconnect_keeps_others_waiting<P: Platform>(op: DisconnectOp<P>, lock: bool)
    requires
        call_ensures(DisconnectOp::<P>::needs_connection_lock, (&op,), lock),
    ensures
        lock <==> op is Checking || op is Disconnecting || op is AwaitingEvent,
{
}

/// A connect event is handled at once; a disconnect event is handed on with the address of its device,
/// to be handled step by step.
pub proof fn law_events_go_to_their_handling<P: Platform>(
    handler: &mut Handler<P>,
    event: ConnectionEvent,
    address: &str,
    result: (Option<DisconnectedOp<P>>, Option<bool>),
)
    requires
        call_ensures(Handler::<P>::handle_event, (handler, event, address), result),
    ensures
        event is Connected ==> result.0 is None && old(handler).connect_event_goes(
            address@,
            *final(handler),
            result.1,
        ),
        event is Disconnected ==> (result.0 matches Some(DisconnectedOp::Received(text)) && text@
            == address@) && result.1 is None && *final(handler) == *old(handler),
{
}

/// One step of the task that follows the connection events of a device.
pub struct EventTaskStep {
    pub task: EventTask,
    pub event: EventTaskEvent,
    pub next: EventTask,
}

impl EventTaskStep {
    /// The step is one that the task can take.
    #[verifier::opaque]
    pub open spec fn goes(self) -> bool {
        call_ensures(connection_event_handler, (self.task, self.event), self.next)
    }
}

/// `steps` are steps of a task that follows a device, from its beginning.
pub open spec fn is_event_run(steps: Seq<EventTaskStep>) -> bool {
    &&& steps.len() > 0
    &&& steps[0].task is Opening
    &&& forall|i: int| 0 <= i < steps.len() ==> #[trigger] steps[i].goes()
    &&& forall|i: int|
        #![trigger steps[i]]
        0 < i < steps.len() ==> steps[i].task == steps[i - 1].next
}

/// The events that came in `steps` while the task waited for one, in their order.
pub open spec fn events_come(steps: Seq<EventTaskStep>) -> Seq<ConnectionEvent>
    decreases steps.len(),
{
    if steps.len() == 0 {
        Seq::empty()
    } else {
        match (steps.last().task, steps.last().event) {
            (EventTask::Listening, EventTaskEvent::Next(Some(event))) => events_come(
                steps.drop_last(),
            ).push(event),
            _ => events_come(steps.drop_last()),
        }
    }
}

/// The events that have been handled in `steps`, in their order.
pub open spec fn events_handled(steps: Seq<EventTaskStep>) -> Seq<ConnectionEvent>
    decreases steps.len(),
{
    if steps.len() == 0 {
        Seq::empty()
    } else {
        match (steps.last().task, steps.last().event) {
            (EventTask::Handling(event), EventTaskEvent::Handled) => events_handled(
                steps.drop_last(),
            ).push(event),
            _ => events_handled(steps.drop_last()),
        }
    }
}

proof fn lemma_event_step(
    step: EventTaskStep,
    come: Seq<ConnectionEvent>,
    handled: Seq<ConnectionEvent>,
)
    requires
        step.goes(),
        come == match step.task {
            EventTask::Handling(event) => handled.push(event),
            _ => handled,
        },
    ensures
        (match (step.task, step.event) {
            (EventTask::Listening, EventTaskEvent::Next(Some(event))) => come.push(event),
            _ => come,
        }) == ({
            let done = match (step.task, step.event) {
                (EventTask::Handling(event), EventTaskEvent::Handled) => handled.push(event),
                _ => handled,
            };
            match step.next {
                EventTask::Handling(event) => done.push(event),
                _ => done,
            }
        }),
{
    reveal(EventTaskStep::goes);
}

/// Every connection event of a device is handled, once and in order: those that have been handled, and
/// then the one that is being handled, are exactly those that came.
pub proof fn law_every_connection_event_is_handled(steps: Seq<EventTaskStep>)
    requires
        is_event_run(steps),
    ensures
        events_come(steps) == match steps.last().next {
            EventTask::Handling(event) => events_handled(steps).push(event),
            _ => events_handled(steps),
        },
    decreases steps.len(),
{
    let last = steps[steps.len() - 1];
    let init = steps.drop_last();
    assert(last.goes());
    if steps.len() == 1 {
        assert(events_come(init) =~= Seq::empty());
        assert(events_handled(init) =~= Seq::empty());
    } else {
        assert forall|i: int| 0 <= i < init.len() implies #[trigger] init[i].goes() by {
            assert(steps[i].goes());
        }
        assert forall|i: int| #![trigger init[i]] 0 < i < init.len() implies init[i].task == init[i
            - 1].next by {
            assert(steps[i].task == steps[i - 1].next);
        }
        law_every_connection_event_is_handled(init);
        assert(last.task == steps[steps.len() - 2].next);
    }
    lemma_event_step(last, events_come(init), events_handled(init));
}

/// A device is followed exactly if its events could be opened, until there are no more of them.
pub proof fn law_device_is_followed_to_the_end(
    task: EventTask,
    event: EventTaskEvent,
    next: EventTask,
)
    requires
        call_ensures(connection_event_handler, (task, event), next),
        task !is Ended,
    ensures
        next is Ended <==> (task is Opening && (event matches EventTaskEvent::Opened(Err(_)))) || (
        task is Listening && (event matches EventTaskEvent::Next(None))),
        task is Opening && (event matches EventTaskEvent::Opened(Ok(_))) ==> next is Listening,
        task is Handling && event is Handled ==> next is Listening,
{
}

} // verus!
