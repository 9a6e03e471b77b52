//! What holds of a handler whatever has been asked of it.
use vstd::prelude::*;

use std::sync::Arc;

use crate::connect::{
    Attempt, AttemptEvent, ConnectEvent, ConnectOp, attempt_goes, connect_goes,
};
use crate::disconnect::{DisconnectedEvent, DisconnectedOp, disconnected_goes};
use crate::error::Error;
use crate::handler::{Handler, StoppedScan};
use crate::ids::Uuid;
use crate::platform::Platform;
use crate::scan::{
    DiscoverEvent, DiscoverOp, ScanEvent, ScanTask, discover_goes, knows_by_address, scan_goes,
};
use crate::subscribe::{SubscribeEvent, SubscribeOp, subscribe_goes};

verus! {

/// A call that can change a handler, with what it returned.
#[verifier::reject_recursive_types(P)]
pub enum Call<P: Platform> {
    /// [`Handler::adapter_opened`]
    AdapterOpened(Result<P::Adapter, String>, Result<Arc<P::Adapter>, Error>),
    /// [`Handler::set_scanning_update_channel`]
    SetScanningUpdateChannel(P::Sender),
    /// [`Handler::set_connection_update_channel`]
    SetConnectionUpdateChannel(P::Sender),
    /// [`Handler::stop_scan`]
    StopScan(Option<StoppedScan<P>>),
    /// [`Handler::discover`]
    Discover(DiscoverOp, DiscoverEvent<P::Task>, DiscoverOp),
    /// [`Handler::discover_handler`]
    DiscoverHandler(ScanTask<P>, ScanEvent<P>, ScanTask<P>),
    /// [`Handler::connect_internal`]
    ConnectInternal(Attempt, AttemptEvent, Attempt, Option<bool>),
    /// [`Handler::connect`]
    Connect(ConnectOp<P>, ConnectEvent<P>, ConnectOp<P>, Option<bool>),
    /// [`Handler::abandon_connect`]
    AbandonConnect,
    /// [`Handler::handle_connect`], or [`Handler::handle_event`] for a connect event
    HandleConnect(Seq<char>, Option<bool>),
    /// [`Handler::handle_disconnect`]
    HandleDisconnect(DisconnectedOp<P>, DisconnectedEvent, DisconnectedOp<P>, Option<bool>),
    /// [`Handler::subscribe`]
    Subscribe(SubscribeOp<P>, SubscribeEvent<P::Task>, SubscribeOp<P>),
    /// [`Handler::unsubscribe`] while a device is connected
    Unsubscribe(Uuid, Seq<P::Task>),
    /// Any call that leaves the handler as it is
    Read,
}

impl<P: Platform> Call<P> {
    /// The call took the handler from `before` to `after`.
    pub open spec fn goes(self, before: Handler<P>, after: Handler<P>) -> bool {
        match self {
            Call::AdapterOpened(opened, result) => before.opens_adapter(opened, after, result),
            Call::SetScanningUpdateChannel(tx) => before.adds_scan_listener(tx, after),
            Call::SetConnectionUpdateChannel(tx) => before.adds_connection_listener(tx, after),
            Call::StopScan(stopped) => before.stops_scan(after, stopped),
            Call::Discover(op, event, next) => discover_goes(before, op, event, after, next),
            Call::DiscoverHandler(task, event, next) => scan_goes(before, task, event, after, next),
            Call::ConnectInternal(attempt, event, next, send) => {
                &&& attempt_goes(before.connected, attempt, event, after.connected, next, send)
                &&& after == (Handler { connected: after.connected, ..before })
            },
            Call::Connect(op, event, next, send) => connect_goes(
                before,
                op,
                event,
                after,
                next,
                send,
            ),
            Call::AbandonConnect => after == (Handler { connecting: None, ..before }),
            Call::HandleConnect(address, send) => before.connect_event_goes(address, after, send),
            Call::HandleDisconnect(op, event, next, send) => disconnected_goes(
                before,
                op,
                event,
                after,
                next,
                send,
            ),
            Call::Subscribe(op, event, next) => subscribe_goes(before, op, event, after, next),
            Call::Unsubscribe(c, removed) => before.unsubscribes(c, removed, after),
            Call::Read => after == before,
        }
    }

    /// The call kept `task` as the task of a scan that was started.
    pub open spec fn starts_scan(self, task: P::Task) -> bool {
        self matches Call::Discover(op, event, _) && op is Spawning && event
            == DiscoverEvent::Spawned(task)
    }

    /// The call stopped the scan or started another one.
    pub open spec fn ends_scan(self) -> bool {
        ||| self is StopScan
        ||| self matches Call::Discover(op, event, _) && op is Spawning && event is Spawned
    }
}

/// `handlers` are the states of a handler that was new at first, before and after each of `calls`.
pub open spec fn is_history<P: Platform>(handlers: Seq<Handler<P>>, calls: Seq<Call<P>>) -> bool {
    &&& handlers.len() == calls.len() + 1
    &&& handlers[0].is_new()
    &&& forall|i: int|
        #![trigger calls[i]]
        0 <= i < calls.len() ==> calls[i].goes(handlers[i], handlers[i + 1])
}

/// `task` is the task of the latest scan that was started in `calls`, and no scan was stopped since.
pub open spec fn is_latest_scan<P: Platform>(calls: Seq<Call<P>>, task: P::Task) -> bool {
    exists|i: int|
        #![trigger calls[i]]
        0 <= i < calls.len() && calls[i].starts_scan(task) && !scan_ends_after(calls, i)
}

/// A scan was stopped or started in `calls` after place `i`.
pub open spec fn scan_ends_after<P: Platform>(calls: Seq<Call<P>>, i: int) -> bool {
    exists|j: int| i < j < calls.len() && (#[trigger] calls[j]).ends_scan()
}

proof fn lemma_shorter_history<P: Platform>(handlers: Seq<Handler<P>>, calls: Seq<Call<P>>)
    requires
        is_history(handlers, calls),
        calls.len() > 0,
    ensures
        is_history(handlers.drop_last(), calls.drop_last()),
        calls.last().goes(handlers.drop_last().last(), handlers.last()),
{
    let n = calls.len() - 1;
    assert(calls[n].goes(handlers[n], handlers[n + 1]));
    assert forall|i: int| #![trigger calls.drop_last()[i]] 0 <= i < n implies calls.drop_last()[i].goes(
        handlers.drop_last()[i],
        handlers.drop_last()[i + 1],
    ) by {
        assert(calls.drop_last()[i] == calls[i]);
    }
}

/// A call that ends no scan keeps the task of the scan, and one that does sets it.
proof fn lemma_call_and_scan_task<P: Platform>(
    call: Call<P>,
    before: Handler<P>,
    after: Handler<P>,
)
    requires
        call.goes(before, after),
    ensures
        !call.ends_scan() ==> after.scan_task == before.scan_task,
        call.ends_scan() ==> forall|task: P::Task|
            after.scan_task == Some(task) <==> #[trigger] call.starts_scan(task),
{
}

/// The task of a scan is kept exactly as long as no other scan is started and none is stopped: the
/// handler has a scan's task exactly if that scan is the latest that was started and was not stopped
/// since.
pub proof fn law_latest_scan_is_kept<P: Platform>(
    handlers: Seq<Handler<P>>,
    calls: Seq<Call<P>>,
    task: P::Task,
)
    requires
        is_history(handlers, calls),
    ensures
        handlers.last().scan_task == Some(task) <==> is_latest_scan(calls, task),
    decreases calls.len(),
{
    if calls.len() > 0 {
        let n = calls.len() - 1;
        let init = calls.drop_last();
        lemma_shorter_history(handlers, calls);
        law_latest_scan_is_kept(handlers.drop_last(), init, task);
        lemma_call_and_scan_task(calls[n], handlers.drop_last().last(), handlers.last());
        if calls[n].ends_scan() {
            assert forall|i: int| 0 <= i < n implies scan_ends_after(calls, i) by {
                assert(calls[n].ends_scan());
            }
            assert(!scan_ends_after(calls, n));
            assert(handlers.last().scan_task == Some(task) <==> calls[n].starts_scan(task));
        } else {
            assert(!calls[n].starts_scan(task));
            assert forall|i: int| 0 <= i < n implies scan_ends_after(calls, i) == scan_ends_after(
                init,
                i,
            ) by {
                if scan_ends_after(calls, i) {
                    let j = choose|j: int| i < j < calls.len() && (#[trigger] calls[j]).ends_scan();
                    assert(init[j].ends_scan());
                }
                if scan_ends_after(init, i) {
                    let j = choose|j: int| i < j < init.len() && (#[trigger] init[j]).ends_scan();
                    assert(calls[j].ends_scan());
                }
            }
            if is_latest_scan(init, task) {
                let i = choose|i: int|
                    #![trigger init[i]]
                    0 <= i < init.len() && init[i].starts_scan(task) && !scan_ends_after(init, i);
                assert(calls[i].starts_scan(task));
            }
            if is_latest_scan(calls, task) {
                let i = choose|i: int|
                    #![trigger calls[i]]
                    0 <= i < calls.len() && calls[i].starts_scan(task) && !scan_ends_after(calls, i);
                assert(init[i].starts_scan(task));
            }
        }
    }
}

/// The handler is scanning exactly if a scan was started, was not stopped since, and its task is not
/// finished.
pub proof fn law_handler_scans_until_stopped_or_finished<P: Platform, F: Fn(&P::Task) -> bool>(
    handlers: Seq<Handler<P>>,
    calls: Seq<Call<P>>,
    is_finished: F,
    scanning: bool,
)
    requires
        is_history(handlers, calls),
        handlers.last().tells_scanning(is_finished, scanning),
    ensures
        forall|task: P::Task| #[trigger]
            is_latest_scan(calls, task) ==> call_ensures(is_finished, (&task,), !scanning),
        scanning ==> exists|task: P::Task| is_latest_scan(calls, task),
{
    assert forall|task: P::Task| #[trigger] is_latest_scan(calls, task) implies call_ensures(
        is_finished,
        (&task,),
        !scanning,
    ) by {
        law_latest_scan_is_kept(handlers, calls, task);
    }
    if scanning {
        law_latest_scan_is_kept(handlers, calls, handlers.last().scan_task->0);
    }
}

/// Whether the handler is scanning is told as it is said to be: without a scan's task it is not, and
/// with one it is whether that task is not finished.
pub proof fn law_scanning_is_told_of_the_task<P: Platform, F: Fn(&P::Task) -> bool>(
    handler: Handler<P>,
    is_finished: F,
    scanning: bool,
)
    requires
        call_ensures(Handler::<P>::is_scanning::<F>, (&handler, is_finished), scanning),
    ensures
        handler.tells_scanning(is_finished, scanning),
        handler.scan_task is None ==> !scanning,
        handler.scan_task matches Some(task) ==> call_ensures(is_finished, (&task,), !scanning),
{
}

/// Every handler knows each device under its own address.
pub proof fn law_devices_are_known_by_their_addresses<P: Platform>(
    handlers: Seq<Handler<P>>,
    calls: Seq<Call<P>>,
)
    requires
        is_history(handlers, calls),
    ensures
        knows_by_address(handlers.last()),
    decreases calls.len(),
{
    if calls.len() > 0 {
        lemma_shorter_history(handlers, calls);
        law_devices_are_known_by_their_addresses(handlers.drop_last(), calls.drop_last());
    }
}

} // verus!
