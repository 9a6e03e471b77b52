//! Notifications of a characteristic.
use vstd::prelude::*;

use std::sync::Arc;

use crate::error::Error;
use crate::handler::Handler;
use crate::ids::Uuid;
use crate::platform::Platform;
use crate::timeout::{Timed, is_command_result, run_with_timeout};

verus! {

broadcast use vstd::std_specs::hash::group_hash_axioms;

/// How far the subscribing to a characteristic has come.
pub enum SubscribeOp<P: Platform> {
    /// Nothing has happened yet.
    Requested { c: Uuid, service: Option<Uuid> },
    /// Start the task that listens.
    Spawning { c: Uuid, charac: Arc<P::Charac> },
    /// Wait until the task tells whether it listens.
    AwaitingStart { c: Uuid, task: P::Task },
    /// All is done.
    Finished(Result<(), Error>),
}

/// An answer to what a [`SubscribeOp`] asks for.
#[derive(Debug)]
pub enum SubscribeEvent<T> {
    /// Begin.
    Proceed,
    /// The task that listens has started.
    Spawned(T),
    /// What the task told about the start of its listening.
    Started(Result<(), Error>),
}

/// The tasks that listen for characteristic `c`.
pub open spec fn listeners<P: Platform>(handler: Handler<P>, c: Uuid) -> Seq<P::Task> {
    match handler.connection {
        Some(conn) => conn.listeners(c),
        None => Seq::empty(),
    }
}

/// The connection of `after` is that of `before` with `task` listening for characteristic `c`,
/// besides those that do already. Nothing else differs.
pub open spec fn listens<P: Platform>(
    before: Handler<P>,
    c: Uuid,
    task: P::Task,
    after: Handler<P>,
) -> bool {
    match (before.connection, after.connection) {
        (Some(old_conn), Some(conn)) => {
            &&& after == (Handler { connection: after.connection, ..before })
            &&& conn.adds_listener(old_conn, c, task)
        },
        _ => false,
    }
}

/// Subscribing goes from `op` to `next` on `event`, while the handler goes from `before` to
/// `after`. The listening task is kept only if it listens and a device is still connected. Tasks
/// that listened for the characteristic before go on. An event that answers something else changes nothing.
pub open spec fn subscribe_goes<P: Platform>(
    before: Handler<P>,
    op: SubscribeOp<P>,
    event: SubscribeEvent<P::Task>,
    after: Handler<P>,
    next: SubscribeOp<P>,
) -> bool {
    match (op, event) {
        (SubscribeOp::Requested { c, service }, SubscribeEvent::Proceed) => {
            &&& after == before
            &&& match next {
                SubscribeOp::Spawning { c: uuid, charac } => uuid == c && before.finds_charac(
                    c,
                    service,
                    Ok(charac),
                ),
                SubscribeOp::Finished(Err(error)) => before.finds_charac(c, service, Err(error)),
                _ => false,
            }
        },
        (SubscribeOp::Spawning { c, .. }, SubscribeEvent::Spawned(task)) => {
            &&& after == before
            &&& next == (SubscribeOp::<P>::AwaitingStart { c, task })
        },
        (SubscribeOp::AwaitingStart { c, task }, SubscribeEvent::Started(started)) => {
            match started {
                Err(error) => {
                    &&& after == before
                    &&& next == SubscribeOp::<P>::Finished(Err(error))
                },
                Ok(()) => if before.connection is Some {
                    &&& listens(before, c, task, after)
                    &&& next == SubscribeOp::<P>::Finished(Ok(()))
                } else {
                    &&& after == before
                    &&& next == SubscribeOp::<P>::Finished(Err(Error::NoDeviceConnected))
                },
            }
        },
        _ => after == before && next == op,
    }
}

/// What the task that listens for notifications does next.
#[derive(Debug)]
pub enum ListenTask {
    /// Have the characteristic send notifications, under the command time limit and while no
    /// other command is under way.
    Opening,
    /// Tell who subscribed that it could not be done, and why. The task ends.
    Refused(Error),
    /// Tell who subscribed that it is done.
    Starting,
    /// Wait for the next notification.
    Listening,
    /// Call the callback with the notification that came.
    Calling(Option<Vec<u8>>),
    /// There are no more notifications. The task ends.
    Ended,
}

/// An answer to what a [`ListenTask`] asks for.
#[derive(Debug)]
pub enum ListenEvent {
    /// The characteristic sends notifications, or could not be made to.
    Opened(Timed<Result<(), String>>),
    /// Who subscribed has been told.
    Told,
    /// The next notification, if there are more.
    Next(Option<Result<Vec<u8>, String>>),
    /// The callback has run.
    Called,
}

impl ListenTask {
    /// The notification to call the callback with, while it is its turn. It is handed out once.
    pub fn take_notification(&mut self) -> (data: Option<Vec<u8>>)
        ensures
            match *old(self) {
                ListenTask::Calling(held) => {
                    &&& data == held
                    &&& *final(self) == ListenTask::Calling(None)
                },
                _ => {
                    &&& data is None
                    &&& *final(self) == *old(self)
                },
            },
    {
        match self {
            ListenTask::Calling(held) => held.take(),
            _ => None,
        }
    }
}

/// The task that listens goes from `task` to `next` on `event`. The callback runs for every
/// notification that arrives whole, and is over before the next one is taken. An event that
/// answers something else changes nothing.
pub open spec fn listen_goes(task: ListenTask, event: ListenEvent, next: ListenTask) -> bool {
    match (task, event) {
        (ListenTask::Opening, ListenEvent::Opened(outcome)) => {
            if outcome is Finished && outcome->Finished_0 is Ok {
                next == ListenTask::Starting
            } else {
                next matches ListenTask::Refused(error) && is_command_result::<()>(
                    outcome,
                    "subscribe"@,
                    Err(error),
                )
            }
        },
        (ListenTask::Starting, ListenEvent::Told) => next == ListenTask::Listening,
        (ListenTask::Listening, ListenEvent::Next(item)) => match item {
            Some(Ok(data)) => next == ListenTask::Calling(Some(data)),
            Some(Err(_)) => next == ListenTask::Listening,
            None => next == ListenTask::Ended,
        },
        (ListenTask::Calling(_), ListenEvent::Called) => next == ListenTask::Listening,
        _ => next == task,
    }
}

/// Moves the task that listens for notifications on by one answer.
pub fn subscribe_handler(task: ListenTask, event: ListenEvent) -> (next: ListenTask)
    ensures
        listen_goes(task, event, next),
{
    match (task, event) {
        (ListenTask::Opening, ListenEvent::Opened(outcome)) => match run_with_timeout(
            outcome,
            "subscribe",
        ) {
            Ok(()) => ListenTask::Starting,
            Err(error) => ListenTask::Refused(error),
        },
        (ListenTask::Starting, ListenEvent::Told) => ListenTask::Listening,
        (ListenTask::Listening, ListenEvent::Next(item)) => match item {
            Some(Ok(data)) => ListenTask::Calling(Some(data)),
            Some(Err(_)) => ListenTask::Listening,
            None => ListenTask::Ended,
        },
        (ListenTask::Calling(_), ListenEvent::Called) => ListenTask::Listening,
        (task, _) => task,
    }
}

impl<P: Platform> Handler<P> {
    /// Moves the subscribing to a characteristic on by one answer.
    pub fn subscribe(&mut self, op: SubscribeOp<P>, event: SubscribeEvent<P::Task>) -> (next:
        SubscribeOp<P>)
        ensures
            subscribe_goes(*old(self), op, event, *final(self), next),
    {
        match (op, event) {
            (
                SubscribeOp::Requested { c, service },
                SubscribeEvent::Proceed,
            ) => match self.require_charac(c, service) {
                Ok(charac) => SubscribeOp::Spawning { c, charac },
                Err(error) => SubscribeOp::Finished(Err(error)),
            },
            (SubscribeOp::Spawning { c, .. }, SubscribeEvent::Spawned(task)) => {
                SubscribeOp::AwaitingStart { c, task }
            },
            (
                SubscribeOp::AwaitingStart { c, task },
                SubscribeEvent::Started(started),
            ) => match started {
                Ok(()) => match &mut self.connection {
                    Some(conn) => {
                        conn.add_listener(c, task);
                        SubscribeOp::Finished(Ok(()))
                    },
                    None => SubscribeOp::Finished(Err(Error::NoDeviceConnected)),
                },
                Err(error) => SubscribeOp::Finished(Err(error)),
            },
            (op, _) => op,
        }
    }
}

/// Unsubscribing undoes subscribing: it hands out the task that listened, after those that listened
/// before it, and leaves the listeners as they were without that characteristic.
pub proof fn law_unsubscribe_undoes_subscribe<P: Platform>(
    before: Handler<P>,
    c: Uuid,
    task: P::Task,
    subscribed: Handler<P>,
    removed: Seq<P::Task>,
    after: Handler<P>,
)
    requires
        listens(before, c, task, subscribed),
        subscribed.unsubscribes(c, removed, after),
    ensures
        removed == listeners(before, c).push(task),
        listeners(after, c) == Seq::<P::Task>::empty(),
        forall|other: Uuid|
            other != c ==> #[trigger] listeners(after, other) == listeners(before, other),
{
    assert forall|other: Uuid| other != c implies #[trigger] listeners(after, other) == listeners(
        before,
        other,
    ) by {
        assert(subscribed.connection->0.listeners(other) == before.connection->0.listeners(other));
    }
}

/// A task that listens for a characteristic does so until the characteristic is unsubscribed: each
/// subscription adds one to those that listen, in the order of their coming, and unsubscribing hands
/// out all of them.
pub proof fn law_every_listener_is_handed_out<P: Platform>(
    handlers: Seq<Handler<P>>,
    c: Uuid,
    tasks: Seq<P::Task>,
    removed: Seq<P::Task>,
    after: Handler<P>,
)
    requires
        handlers.len() == tasks.len() + 1,
        forall|i: int|
            #![trigger tasks[i]]
            0 <= i < tasks.len() ==> listens(handlers[i], c, tasks[i], handlers[i + 1]),
        handlers.last().unsubscribes(c, removed, after),
    ensures
        removed == listeners(handlers[0], c) + tasks,
        listeners(after, c) == Seq::<P::Task>::empty(),
{
    lemma_listeners_gather(handlers, c, tasks);
}

proof fn lemma_listeners_gather<P: Platform>(
    handlers: Seq<Handler<P>>,
    c: Uuid,
    tasks: Seq<P::Task>,
)
    requires
        handlers.len() == tasks.len() + 1,
        forall|i: int|
            #![trigger tasks[i]]
            0 <= i < tasks.len() ==> listens(handlers[i], c, tasks[i], handlers[i + 1]),
    ensures
        listeners(handlers.last(), c) == listeners(handlers[0], c) + tasks,
    decreases tasks.len(),
{
    if tasks.len() > 0 {
        let n = tasks.len() - 1;
        assert(listens(handlers[n], c, tasks[n], handlers[n + 1]));
        assert forall|i: int|
            #![trigger tasks.drop_last()[i]]
            0 <= i < n implies listens(
            handlers.drop_last()[i],
            c,
            tasks.drop_last()[i],
            handlers.drop_last()[i + 1],
        ) by {
            assert(tasks.drop_last()[i] == tasks[i]);
        }
        lemma_listeners_gather(handlers.drop_last(), c, tasks.drop_last());
        assert(handlers.drop_last().last() == handlers[n]);
        assert(listeners(handlers[0], c) + tasks =~= (listeners(handlers[0], c)
            + tasks.drop_last()).push(tasks[n]));
    } else {
        assert(listeners(handlers[0], c) + tasks =~= listeners(handlers[0], c));
    }
}

/// Subscribing and unsubscribing touch the listeners of no other characteristic.
pub proof fn law_other_listeners_are_kept<P: Platform>(
    before: Handler<P>,
    c: Uuid,
    other: Uuid,
    task: P::Task,
    subscribed: Handler<P>,
    removed: Seq<P::Task>,
    unsubscribed: Handler<P>,
)
    requires
        other != c,
        listens(before, c, task, subscribed),
        before.unsubscribes(c, removed, unsubscribed),
    ensures
        listeners(subscribed, other) == listeners(before, other),
        listeners(unsubscribed, other) == listeners(before, other),
{
    assert(subscribed.connection->0.listeners(other) == before.connection->0.listeners(other));
}

/// One step of the task that listens.
pub struct ListenStep {
    pub task: ListenTask,
    pub event: ListenEvent,
    pub next: ListenTask,
}

impl ListenStep {
    /// A notification arrived whole in this step.
    pub open spec fn receives(self) -> bool {
        self.task is Listening && self.event matches ListenEvent::Next(Some(Ok(_)))
    }

    /// The callback came to its end in this step.
    pub open spec fn completes(self) -> bool {
        self.task is Calling && self.event is Called
    }
}

/// `steps` are steps of a task that listens, from its beginning. While the callback runs the
/// notification may be taken out.
pub open spec fn is_listen_run(steps: Seq<ListenStep>) -> bool {
    &&& steps.len() > 0
    &&& steps[0].task is Opening
    &&& forall|i: int|
        #![trigger steps[i]]
        0 <= i < steps.len() ==> listen_goes(steps[i].task, steps[i].event, steps[i].next)
    &&& forall|i: int|
        #![trigger steps[i]]
        0 < i < steps.len() ==> steps[i].task == steps[i - 1].next || (steps[i].task
            == ListenTask::Calling(None) && steps[i - 1].next is Calling)
}

/// How many notifications arrived whole in `steps`.
pub open spec fn received(steps: Seq<ListenStep>) -> nat
    decreases steps.len(),
{
    if steps.len() == 0 {
        0
    } else {
        received(steps.drop_last()) + if steps.last().receives() {
            1nat
        } else {
            0nat
        }
    }
}

/// How often the callback came to its end in `steps`.
pub open spec fn completed(steps: Seq<ListenStep>) -> nat
    decreases steps.len(),
{
    if steps.len() == 0 {
        0
    } else {
        completed(steps.drop_last()) + if steps.last().completes() {
            1nat
        } else {
            0nat
        }
    }
}

/// The callback is called once for every notification that arrives whole: as often as one arrived
/// it has come to its end, but for the one that it is running for.
pub proof fn law_callback_runs_for_every_notification(steps: Seq<ListenStep>)
    requires
        is_listen_run(steps),
    ensures
        received(steps) == completed(steps) + if steps.last().next is Calling {
            1nat
        } else {
            0nat
        },
    decreases steps.len(),
{
    let last = steps[steps.len() - 1];
    assert(listen_goes(last.task, last.event, last.next));
    let init = steps.drop_last();
    if steps.len() == 1 {
        assert(received(init) == 0);
        assert(completed(init) == 0);
    } else {
        assert forall|i: int| #![trigger init[i]] 0 <= i < init.len() implies listen_goes(
            init[i].task,
            init[i].event,
            init[i].next,
        ) by {
            assert(steps[i] == init[i]);
        }
        assert forall|i: int| #![trigger init[i]] 0 < i < init.len() implies init[i].task == init[i
            - 1].next || (init[i].task == ListenTask::Calling(None) && init[i
            - 1].next is Calling) by {
            assert(steps[i] == init[i]);
        }
        law_callback_runs_for_every_notification(init);
    }
}

/// The data of the notifications that arrived whole in `steps`, in their order.
pub open spec fn arrived(steps: Seq<ListenStep>) -> Seq<Seq<u8>>
    decreases steps.len(),
{
    if steps.len() == 0 {
        Seq::empty()
    } else {
        match (steps.last().task, steps.last().event) {
            (ListenTask::Listening, ListenEvent::Next(Some(Ok(data)))) => arrived(
                steps.drop_last(),
            ).push(data@),
            _ => arrived(steps.drop_last()),
        }
    }
}

/// The data that was laid out for the callback in `steps`, each time that its turn came.
pub open spec fn laid_out(steps: Seq<ListenStep>) -> Seq<Seq<u8>>
    decreases steps.len(),
{
    if steps.len() == 0 {
        Seq::empty()
    } else {
        match (steps.last().task, steps.last().next) {
            (ListenTask::Calling(_), _) => laid_out(steps.drop_last()),
            (_, ListenTask::Calling(Some(data))) => laid_out(steps.drop_last()).push(data@),
            (_, ListenTask::Calling(None)) => laid_out(steps.drop_last()).push(Seq::empty()),
            _ => laid_out(steps.drop_last()),
        }
    }
}

proof fn lemma_shorter_listen_run(steps: Seq<ListenStep>)
    requires
        is_listen_run(steps),
        steps.len() > 1,
    ensures
        is_listen_run(steps.drop_last()),
{
    let init = steps.drop_last();
    assert forall|i: int| #![trigger init[i]] 0 <= i < init.len() implies listen_goes(
        init[i].task,
        init[i].event,
        init[i].next,
    ) by {
        assert(steps[i] == init[i]);
    }
    assert forall|i: int| #![trigger init[i]] 0 < i < init.len() implies init[i].task == init[i
        - 1].next || (init[i].task == ListenTask::Calling(None) && init[i - 1].next is Calling) by {
        assert(steps[i] == init[i]);
    }
}

/// The callback is called with exactly the notifications that arrived whole, in their order and byte
/// for byte.
pub proof fn law_callback_gets_every_byte(steps: Seq<ListenStep>)
    requires
        is_listen_run(steps),
    ensures
        laid_out(steps) == arrived(steps),
        laid_out(steps).len() == completed(steps) + if steps.last().next is Calling {
            1nat
        } else {
            0nat
        },
    decreases steps.len(),
{
    let last = steps[steps.len() - 1];
    assert(listen_goes(last.task, last.event, last.next));
    let init = steps.drop_last();
    if steps.len() == 1 {
        assert(arrived(init) =~= Seq::empty());
        assert(laid_out(init) =~= Seq::empty());
        assert(completed(init) == 0);
    } else {
        lemma_shorter_listen_run(steps);
        law_callback_gets_every_byte(init);
    }
}

/// The listening goes on until there are no more notifications: one that arrived torn is passed over,
/// and nothing else ends it once it has begun.
pub proof fn law_listening_ends_with_the_notifications(
    task: ListenTask,
    event: ListenEvent,
    next: ListenTask,
)
    requires
        listen_goes(task, event, next),
        task !is Ended,
    ensures
        next is Ended <==> task is Listening && event matches ListenEvent::Next(None),
        task is Listening && (event matches ListenEvent::Next(Some(Err(_)))) ==> next is Listening,
        task is Calling && event is Called ==> next is Listening,
        task is Starting && event is Told ==> next is Listening,
{
}

/// The listening begins exactly if the characteristic could be made to send notifications in time. If
/// not, who subscribed gets the backend's error or a timeout.
pub proof fn law_listening_begins_if_the_backend_says_so(
    outcome: Timed<Result<(), String>>,
    next: ListenTask,
)
    requires
        listen_goes(ListenTask::Opening, ListenEvent::Opened(outcome), next),
    ensures
        next is Starting <==> outcome matches Timed::Finished(Ok(_)),
        outcome matches Timed::Finished(Err(message)) ==> (next matches ListenTask::Refused(
            Error::Btleplug(text),
        ) && text@ == message@),
        outcome is Elapsed ==> (next matches ListenTask::Refused(Error::Timeout(text)) && text@
            == "subscribe"@),
{
}

/// The task that listens moves as it is said to.
pub proof fn law_listening_moves_as_said(task: ListenTask, event: ListenEvent, next: ListenTask)
    requires
        call_ensures(subscribe_handler, (task, event), next),
    ensures
        listen_goes(task, event, next),
{
}

/// The notification that is laid out for the callback is handed out once, unchanged.
pub proof fn law_notification_is_handed_out_whole(task: &mut ListenTask, data: Option<Vec<u8>>)
    requires
        call_ensures(ListenTask::take_notification, (task,), data),
    ensures
        *old(task) matches ListenTask::Calling(held) ==> data == held && *final(task)
            == ListenTask::Calling(None),
        *old(task) !is Calling ==> data is None && *final(task) == *old(task),
{
}

/// Subscribing moves as it is said to.
pub proof fn law_subscribing_moves_as_said<P: Platform>(
    handler: &mut Handler<P>,
    op: SubscribeOp<P>,
    event: SubscribeEvent<P::Task>,
    next: SubscribeOp<P>,
)
    requires
        call_ensures(Handler::<P>::subscribe, (handler, op, event), next),
    ensures
        subscribe_goes(*old(handler), op, event, *final(handler), next),
{
}

/// A subscription that gets good answers listens to the characteristic that a read of the same request
/// would address, and its task is from then on the last of those that listen for it. Whatever happens to
/// the handler between two answers does not matter, as long as a device is connected at the end.
pub proof fn law_subscription_listens<P: Platform>(
    h0: Handler<P>,
    h1: Handler<P>,
    h2: Handler<P>,
    h3: Handler<P>,
    h4: Handler<P>,
    h5: Handler<P>,
    c: Uuid,
    service: Option<Uuid>,
    read: Result<Arc<P::Charac>, Error>,
    task: P::Task,
    started: Result<(), Error>,
    op1: SubscribeOp<P>,
    op2: SubscribeOp<P>,
    op3: SubscribeOp<P>,
)
    requires
        call_ensures(Handler::<P>::recv_data, (&h0, c, service), read),
        subscribe_goes(h0, SubscribeOp::Requested { c, service }, SubscribeEvent::Proceed, h1, op1),
        subscribe_goes(h2, op1, SubscribeEvent::Spawned(task), h3, op2),
        subscribe_goes(h4, op2, SubscribeEvent::Started(started), h5, op3),
    ensures
        h1 == h0,
        read matches Ok(charac) ==> {
            &&& op1 matches SubscribeOp::Spawning { c: uuid, charac: addressed } && uuid == c
                && addressed == charac
            &&& h3 == h2
            &&& started matches Err(error) ==> op3 == SubscribeOp::<P>::Finished(Err(error)) && h5
                == h4
            &&& started is Ok && h4.connection is None ==> op3 == SubscribeOp::<P>::Finished(
                Err(Error::NoDeviceConnected),
            ) && h5 == h4
            &&& started is Ok ==> (h4.connection matches Some(conn) ==> {
                &&& op3 == SubscribeOp::<P>::Finished(Ok(()))
                &&& h5.connection matches Some(after) && {
                    &&& after.notify_listeners@.contains_key(c)
                    &&& after.notify_listeners@[c]@ == conn.listeners(c).push(task)
                    &&& after.connected_dev == conn.connected_dev
                    &&& after.services == conn.services
                    &&& after.characs == conn.characs
                    &&& after.on_disconnect == conn.on_disconnect
                    &&& after.device_event_handle == conn.device_event_handle
                }
                &&& h5 == (Handler { connection: h5.connection, ..h4 })
            })
        },
        read matches Err(error) ==> (op1 matches SubscribeOp::Finished(Err(refused)) && refused@
            == error@),
{
    if let Ok(charac) = read {
        assert(op1 is Spawning);
    }
}

/// The tasks that listen for a characteristic are those that the connection holds under it.
pub proof fn law_listeners_are_those_of_the_connection<P: Platform>(handler: Handler<P>, c: Uuid)
    ensures
        handler.connection matches Some(conn) && conn.notify_listeners@.contains_key(c)
            ==> listeners(handler, c) == handler.connection->0.notify_listeners@[c]@,
        !(handler.connection matches Some(conn) && conn.notify_listeners@.contains_key(c))
            ==> listeners(handler, c).len() == 0,
{
}

} // verus!
