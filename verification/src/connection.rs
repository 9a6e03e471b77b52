//! The connection to a device.
use vstd::prelude::*;

use std::collections::HashMap;
use std::sync::Arc;

use crate::error::{Error, ErrorView, fails_with};
use crate::event_handlers::OnDisconnectHandler;
use crate::ids::{Uuid, hyphenated, uuid_to_string};
use crate::models::{
    Characteristic, DiscoveredDevice, Service, ServiceRead, build_service_model,
    law_presented_services_are_those_read, presents_services,
};
use crate::platform::Platform;

verus! {

broadcast use vstd::std_specs::hash::group_hash_axioms;

/// A characteristic that the connected device offers, with the outside value that reads and
/// writes it.
pub struct KnownCharac<P: Platform> {
    pub uuid: Uuid,
    pub handle: Arc<P::Charac>,
}

/// What was read of the services of a device.
pub struct ServiceListing<P: Platform> {
    /// The services, to be shown to the user.
    pub services: Vec<ServiceRead>,
    /// The characteristics of each service, in the order of the services.
    pub characs: Vec<Vec<KnownCharac<P>>>,
}

/// An open connection.
#[verifier::reject_recursive_types(P)]
pub struct Connection<P: Platform> {
    pub connected_dev: Arc<DiscoveredDevice<P>>,
    pub services: Vec<Service>,
    /// The characteristics of each service, in the order of the services.
    pub characs: Vec<Vec<KnownCharac<P>>>,
    /// The tasks that listen for notifications, by the UUID of their characteristic and in the
    /// order of their coming.
    pub notify_listeners: HashMap<Uuid, Vec<P::Task>>,
    /// The task that follows the connection events of the device.
    pub device_event_handle: Option<P::Task>,
    pub on_disconnect: OnDisconnectHandler<P::SyncCallback, P::AsyncCallback>,
}

/// The members of all groups, in their order.
pub open spec fn flat<P: Platform>(groups: Seq<Vec<KnownCharac<P>>>) -> Seq<KnownCharac<P>>
    decreases groups.len(),
{
    if groups.len() == 0 {
        Seq::empty()
    } else {
        flat(groups.drop_last()) + groups.last()@
    }
}

/// `services` and `characs` hold what `listing` tells.
pub open spec fn is_listed<P: Platform>(
    services: Seq<Service>,
    characs: Seq<Vec<KnownCharac<P>>>,
    listing: ServiceListing<P>,
) -> bool {
    &&& presents_services(services, listing.services@)
    &&& characs == listing.characs@
}

/// The place of the first service with UUID `service`.
pub open spec fn service_place(services: Seq<Service>, service: Uuid) -> Option<int> {
    services.map_values(|s: Service| s.uuid).index_of_first(service)
}

/// The place of the first characteristic with UUID `uuid` among those shown to the user.
pub open spec fn shown_place(characteristics: Seq<Characteristic>, uuid: Uuid) -> Option<int> {
    characteristics.map_values(|c: Characteristic| c.uuid).index_of_first(uuid)
}

/// The place of the first characteristic with UUID `uuid`.
pub open spec fn charac_place<P: Platform>(characs: Seq<KnownCharac<P>>, uuid: Uuid) -> Option<
    int,
> {
    characs.map_values(|c: KnownCharac<P>| c.uuid).index_of_first(uuid)
}

/// The handle of the first characteristic with UUID `uuid`.
pub open spec fn first_handle<P: Platform>(characs: Seq<KnownCharac<P>>, uuid: Uuid) -> Option<
    Arc<P::Charac>,
> {
    match charac_place(characs, uuid) {
        Some(i) => Some(characs[i].handle),
        None => None,
    }
}

/// The first service with UUID `service` has a characteristic with UUID `uuid`.
pub open spec fn service_offers(services: Seq<Service>, service: Uuid, uuid: Uuid) -> bool {
    service_place(services, service) matches Some(i) && shown_place(
        services[i].characteristics@,
        uuid,
    ) is Some
}

fn find_service(services: &Vec<Service>, service: Uuid) -> (found: Option<usize>)
    ensures
        found is Some <==> service_place(services@, service) is Some,
        found matches Some(i) ==> i < services@.len() && service_place(services@, service) == Some(
            i as int,
        ),
{
    let ghost uuids = services@.map_values(|s: Service| s.uuid);
    proof {
        uuids.index_of_first_ensures(service);
    }
    for i in 0..services.len()
        invariant
            uuids == services@.map_values(|s: Service| s.uuid),
            match uuids.index_of_first(service) {
                Some(k) => 0 <= k < uuids.len() && uuids[k] == service && forall|j: int|
                    0 <= j < k ==> uuids[j] != service,
                None => !uuids.contains(service),
            },
            forall|j: int| 0 <= j < i ==> uuids[j] != service,
    {
        if services[i].uuid == service {
            assert(uuids[i as int] == service);
            return Some(i);
        }
    }
    None
}

fn find_shown(characteristics: &Vec<Characteristic>, uuid: Uuid) -> (found: bool)
    ensures
        found == (shown_place(characteristics@, uuid) is Some),
{
    let ghost uuids = characteristics@.map_values(|c: Characteristic| c.uuid);
    proof {
        uuids.index_of_first_ensures(uuid);
    }
    for i in 0..characteristics.len()
        invariant
            uuids == characteristics@.map_values(|c: Characteristic| c.uuid),
            match uuids.index_of_first(uuid) {
                Some(k) => 0 <= k < uuids.len() && uuids[k] == uuid,
                None => !uuids.contains(uuid),
            },
            forall|j: int| 0 <= j < i ==> uuids[j] != uuid,
    {
        if characteristics[i].uuid == uuid {
            assert(uuids[i as int] == uuid);
            return true;
        }
    }
    false
}

fn find_charac<P: Platform>(characs: &Vec<KnownCharac<P>>, uuid: Uuid) -> (found: Option<
    Arc<P::Charac>,
>)
    ensures
        found == first_handle(characs@, uuid),
{
    let ghost uuids = characs@.map_values(|c: KnownCharac<P>| c.uuid);
    proof {
        uuids.index_of_first_ensures(uuid);
    }
    for i in 0..characs.len()
        invariant
            uuids == characs@.map_values(|c: KnownCharac<P>| c.uuid),
            match uuids.index_of_first(uuid) {
                Some(k) => 0 <= k < uuids.len() && uuids[k] == uuid && forall|j: int|
                    0 <= j < k ==> uuids[j] != uuid,
                None => !uuids.contains(uuid),
            },
            forall|j: int| 0 <= j < i ==> uuids[j] != uuid,
    {
        if characs[i].uuid == uuid {
            assert(uuids[i as int] == uuid);
            return Some(characs[i].handle.clone());
        }
    }
    None
}

/// What is first in two sequences together is first in the first of them, or else in the second.
proof fn lemma_first_of_two<P: Platform>(
    a: Seq<KnownCharac<P>>,
    b: Seq<KnownCharac<P>>,
    uuid: Uuid,
)
    ensures
        first_handle(a + b, uuid) == if first_handle(a, uuid) is Some {
            first_handle(a, uuid)
        } else {
            first_handle(b, uuid)
        },
{
    let uuids_a = a.map_values(|c: KnownCharac<P>| c.uuid);
    let uuids_b = b.map_values(|c: KnownCharac<P>| c.uuid);
    let uuids = (a + b).map_values(|c: KnownCharac<P>| c.uuid);
    assert(uuids =~= uuids_a + uuids_b);
    uuids_a.index_of_first_ensures(uuid);
    uuids_b.index_of_first_ensures(uuid);
    uuids.index_of_first_ensures(uuid);
    if let Some(i) = uuids_a.index_of_first(uuid) {
        assert(uuids[i] == uuid);
        let k = uuids.index_of_first(uuid)->0;
        if k < i {
            assert(uuids_a[k] == uuid);
        }
        assert(k == i);
    } else if let Some(i) = uuids_b.index_of_first(uuid) {
        assert(uuids[a.len() + i] == uuid);
        let k = uuids.index_of_first(uuid)->0;
        if k < a.len() {
            assert(uuids_a[k] == uuid);
        } else if k < a.len() + i {
            assert(uuids_b[k - a.len()] == uuid);
        }
        assert(k == a.len() + i);
    } else if uuids.contains(uuid) {
        let k = uuids.index_of_first(uuid)->0;
        if k < a.len() {
            assert(uuids_a[k] == uuid);
        } else {
            assert(uuids_b[k - a.len()] == uuid);
        }
    }
}

/// What is found in some first groups is found in all of them.
proof fn lemma_found_in_first_groups<P: Platform>(
    groups: Seq<Vec<KnownCharac<P>>>,
    n: int,
    uuid: Uuid,
)
    requires
        0 <= n <= groups.len(),
        first_handle(flat(groups.take(n)), uuid) is Some,
    ensures
        first_handle(flat(groups), uuid) == first_handle(flat(groups.take(n)), uuid),
    decreases groups.len(),
{
    if n == groups.len() {
        assert(groups.take(n) =~= groups);
    } else {
        assert(groups.drop_last().take(n) =~= groups.take(n));
        lemma_found_in_first_groups(groups.drop_last(), n, uuid);
        lemma_first_of_two(flat(groups.drop_last()), groups.last()@, uuid);
    }
}

fn find_anywhere<P: Platform>(groups: &Vec<Vec<KnownCharac<P>>>, uuid: Uuid) -> (found: Option<
    Arc<P::Charac>,
>)
    ensures
        found == first_handle(flat(groups@), uuid),
{
    proof {
        let none = flat(groups@.take(0));
        none.map_values(|c: KnownCharac<P>| c.uuid).index_of_first_ensures(uuid);
    }
    for i in 0..groups.len()
        invariant
            first_handle(flat(groups@.take(i as int)), uuid) is None,
    {
        let found = find_charac(&groups[i], uuid);
        proof {
            let first = groups@.take(i + 1);
            assert(first.drop_last() =~= groups@.take(i as int));
            lemma_first_of_two(flat(first.drop_last()), first.last()@, uuid);
        }
        if found.is_some() {
            proof {
                lemma_found_in_first_groups(groups@, i + 1, uuid);
            }
            return found;
        }
    }
    assert(groups@.take(groups@.len() as int) =~= groups@);
    None
}

impl<P: Platform> Connection<P> {
    /// The characteristic that a request for `uuid` addresses: the first one of the named
    /// service, or the first one of all if no service is named.
    pub open spec fn charac(self, uuid: Uuid, service: Option<Uuid>) -> Option<Arc<P::Charac>> {
        match service {
            Some(s) => match service_place(self.services@, s) {
                Some(i) => if service_offers(self.services@, s, uuid) && i < self.characs@.len() {
                    first_handle(self.characs@[i]@, uuid)
                } else {
                    None
                },
                None => None,
            },
            None => first_handle(flat(self.characs@), uuid),
        }
    }

    /// A connection to `connected_dev`, of which `listing` was read. Nothing listens yet, and no
    /// callback is registered.
    pub fn build(connected_dev: Arc<DiscoveredDevice<P>>, listing: ServiceListing<P>) -> (conn:
        Self)
        ensures
            conn.connected_dev == connected_dev,
            is_listed(conn.services@, conn.characs@, listing),
            conn.notify_listeners@ == Map::<Uuid, Vec<P::Task>>::empty(),
            conn.device_event_handle is None,
            conn.on_disconnect is NoHandler,
    {
        let mut conn = Connection {
            connected_dev,
            services: Vec::new(),
            characs: Vec::new(),
            notify_listeners: HashMap::new(),
            device_event_handle: None,
            on_disconnect: OnDisconnectHandler::NoHandler,
        };
        conn.refresh_services_characs(listing);
        conn
    }

    /// Replaces the known services and characteristics by what was read.
    pub fn refresh_services_characs(&mut self, listing: ServiceListing<P>)
        ensures
            is_listed(final(self).services@, final(self).characs@, listing),
            *final(self) == (Connection {
                services: final(self).services,
                characs: final(self).characs,
                ..*old(self)
            }),
    {
        self.services = build_service_model(&listing.services);
        self.characs = listing.characs;
    }

    /// The characteristic with UUID `uuid`. If a service is named, it is the one of that service.
    pub fn get_charac(&self, uuid: Uuid, service: Option<Uuid>) -> (result: Result<
        Arc<P::Charac>,
        Error,
    >)
        ensures
            match self.charac(uuid, service) {
                Some(c) => result == Ok::<Arc<P::Charac>, Error>(c),
                None => fails_with(result, ErrorView::CharacNotAvailable(hyphenated(uuid))),
            },
    {
        let found = match service {
            Some(service) => match find_service(&self.services, service) {
                Some(i) => {
                    if i < self.characs.len() && find_shown(
                        &self.services[i].characteristics,
                        uuid,
                    ) {
                        find_charac(&self.characs[i], uuid)
                    } else {
                        None
                    }
                },
                None => None,
            },
            None => find_anywhere(&self.characs, uuid),
        };
        match found {
            Some(charac) => Ok(charac),
            None => Err(Error::CharacNotAvailable(uuid_to_string(uuid))),
        }
    }

    /// The tasks that listen for characteristic `c`.
    pub open spec fn listeners(self, c: Uuid) -> Seq<P::Task> {
        if self.notify_listeners@.contains_key(c) {
            self.notify_listeners@[c]@
        } else {
            Seq::empty()
        }
    }

    /// Nothing listens for any characteristic.
    pub open spec fn is_silent(self) -> bool {
        self.notify_listeners@ == Map::<Uuid, Vec<P::Task>>::empty()
    }

    /// This connection is `before` with `task` listening for characteristic `c`, besides those
    /// that do already.
    pub open spec fn adds_listener(self, before: Self, c: Uuid, task: P::Task) -> bool {
        &&& self == (Connection { notify_listeners: self.notify_listeners, ..before })
        &&& self.notify_listeners@.dom() == before.notify_listeners@.dom().insert(c)
        &&& self.listeners(c) == before.listeners(c).push(task)
        &&& forall|other: Uuid|
            other != c ==> #[trigger] self.listeners(other) == before.listeners(other)
    }

    /// Has `task` listen for characteristic `c`, besides those that do already.
    pub fn add_listener(&mut self, c: Uuid, task: P::Task)
        ensures
            final(self).adds_listener(*old(self), c, task),
    {
        let mut tasks = match self.notify_listeners.remove(&c) {
            Some(tasks) => tasks,
            None => Vec::new(),
        };
        tasks.push(task);
        self.notify_listeners.insert(c, tasks);
        assert(self.notify_listeners@.dom() =~= old(self).notify_listeners@.dom().insert(c));
    }

    /// Removes all tasks that listen for characteristic `c`, and hands them out.
    pub fn remove_listeners(&mut self, c: Uuid) -> (removed: Vec<P::Task>)
        ensures
            removed@ == old(self).listeners(c),
            final(self).notify_listeners@ == old(self).notify_listeners@.remove(c),
            *final(self) == (Connection {
                notify_listeners: final(self).notify_listeners,
                ..*old(self)
            }),
    {
        let removed = self.notify_listeners.remove(&c);
        assert(self.notify_listeners@ =~= old(self).notify_listeners@.remove(c));
        match removed {
            Some(tasks) => tasks,
            None => Vec::new(),
        }
    }

    /// `tasks` are all tasks of the connection: the listeners of each characteristic, the
    /// characteristics in some order, and then the task that follows the device.
    pub open spec fn has_tasks(self, tasks: Seq<P::Task>) -> bool {
        exists|order: Seq<Uuid>| #[trigger]
            order.no_duplicates() && order.to_set() == self.notify_listeners@.dom() && tasks
                == order.map_values(|uuid: Uuid| self.listeners(uuid)).flatten() + (
            match self.device_event_handle {
                Some(task) => seq![task],
                None => Seq::empty(),
            })
    }

    /// Ends the connection: hands out all its tasks, which are to be aborted.
    pub fn close(self) -> (tasks: Vec<P::Task>)
        ensures
            self.has_tasks(tasks@),
    {
        let ghost listeners = self.notify_listeners@;
        let ghost groups = |uuid: Uuid| self.listeners(uuid);
        let mut order: Vec<Uuid> = Vec::new();
        for uuid in it: self.notify_listeners.keys()
            invariant
                order@ =~= it.seq().unref().take(it.index() as int),
                it.index() == it.seq().len() ==> order@ =~= it.seq().unref(),
                it.seq().unref().to_set() == listeners.dom(),
        {
            order.push(*uuid);
        }
        let ghost keys = order@;
        let mut notify_listeners = self.notify_listeners;
        let mut tasks: Vec<P::Task> = Vec::new();
        for i in 0..order.len()
            invariant
                order@ == keys,
                keys.no_duplicates(),
                keys.to_set() == listeners.dom(),
                listeners == self.notify_listeners@,
                groups == (|uuid: Uuid| self.listeners(uuid)),
                tasks@ == keys.take(i as int).map_values(groups).flatten(),
                forall|j: int|
                    i <= j < keys.len() ==> notify_listeners@.contains_key(#[trigger] keys[j])
                        && notify_listeners@[keys[j]] == listeners[keys[j]],
        {
            if let Some(group) = notify_listeners.remove(&order[i]) {
                let mut group = group;
                proof {
                    let done = keys.take(i as int).map_values(groups);
                    assert(keys.take(i + 1).map_values(groups) =~= done.push(group@));
                    done.lemma_flatten_push(group@);
                }
                tasks.append(&mut group);
            }
        }
        assert(keys.take(keys.len() as int) =~= keys);
        if let Some(task) = self.device_event_handle {
            tasks.push(task);
        }
        assert(tasks@ =~= keys.map_values(groups).flatten() + (match self.device_event_handle {
            Some(task) => seq![task],
            None => Seq::empty(),
        }));
        tasks
    }
}

/// The characteristics of `listing` are those of its services: each service has as many handles as
/// characteristics, in the same order.
pub open spec fn is_matched<P: Platform>(listing: ServiceListing<P>) -> bool {
    &&& listing.characs@.len() == listing.services@.len()
    &&& forall|i: int|
        0 <= i < listing.services@.len() ==> matches_service(
            #[trigger] listing.characs@[i]@,
            listing.services@[i],
        )
}

/// `characs` are the characteristics of `service`, in their order.
pub open spec fn matches_service<P: Platform>(
    characs: Seq<KnownCharac<P>>,
    service: ServiceRead,
) -> bool {
    &&& characs.len() == service.characteristics@.len()
    &&& forall|k: int|
        0 <= k < characs.len() ==> (#[trigger] characs[k]).uuid == service.characteristics@[k].uuid
}

/// A request that names a service gets a characteristic of that service, and gets one exactly if
/// the service has one with the requested UUID.
pub proof fn law_named_service_gives_its_own_characteristic<P: Platform>(
    conn: Connection<P>,
    listing: ServiceListing<P>,
    uuid: Uuid,
    service: Uuid,
)
    requires
        is_listed(conn.services@, conn.characs@, listing),
        is_matched(listing),
    ensures
        conn.charac(uuid, Some(service)) is Some <==> service_offers(conn.services@, service, uuid),
        service_place(conn.services@, service) matches Some(i) ==> {
            &&& 0 <= i < listing.services@.len()
            &&& listing.services@[i].uuid == service
            &&& conn.charac(uuid, Some(service)) == first_handle(listing.characs@[i]@, uuid)
        },
        service_place(conn.services@, service) is None ==> forall|i: int|
            0 <= i < listing.services@.len() ==> (#[trigger] listing.services@[i]).uuid != service,
{
    let uuids = conn.services@.map_values(|s: Service| s.uuid);
    uuids.index_of_first_ensures(service);
    match service_place(conn.services@, service) {
        Some(i) => {
            assert(uuids[i] == service);
            let shown = conn.services@[i].characteristics@.map_values(|c: Characteristic| c.uuid);
            let known = listing.characs@[i]@.map_values(|c: KnownCharac<P>| c.uuid);
            assert(matches_service(listing.characs@[i]@, listing.services@[i]));
            assert forall|k: int| 0 <= k < known.len() implies known[k] == shown[k] by {
                assert(listing.characs@[i]@[k].uuid == listing.services@[i].characteristics@[k].uuid);
                assert(conn.services@[i].characteristics@[k].uuid == known[k]);
            }
            assert(known =~= shown);
        },
        None => {
            assert forall|i: int| 0 <= i < listing.services@.len() implies (
            #[trigger] listing.services@[i]).uuid != service by {
                assert(conn.services@[i].uuid == listing.services@[i].uuid);
                assert(uuids[i] == conn.services@[i].uuid);
            }
        },
    }
}

/// Place `k` of `characs` is the first that holds a characteristic with UUID `uuid`.
pub open spec fn is_first_charac<P: Platform>(
    characs: Seq<KnownCharac<P>>,
    uuid: Uuid,
    k: int,
) -> bool {
    &&& 0 <= k < characs.len()
    &&& characs[k].uuid == uuid
    &&& forall|m: int| 0 <= m < k ==> (#[trigger] characs[m]).uuid != uuid
}

/// No place of `characs` holds a characteristic with UUID `uuid`.
pub open spec fn lacks_charac<P: Platform>(characs: Seq<KnownCharac<P>>, uuid: Uuid) -> bool {
    forall|m: int| 0 <= m < characs.len() ==> (#[trigger] characs[m]).uuid != uuid
}

/// Place `i` of what was read is the first that holds a service with UUID `service`.
pub open spec fn is_first_service(read: Seq<ServiceRead>, service: Uuid, i: int) -> bool {
    &&& 0 <= i < read.len()
    &&& read[i].uuid == service
    &&& forall|m: int| 0 <= m < i ==> (#[trigger] read[m]).uuid != service
}

/// `result` says that the characteristic with UUID `uuid` is not available.
pub open spec fn is_not_available<T>(result: Result<T, Error>, uuid: Uuid) -> bool {
    result matches Err(Error::CharacNotAvailable(text)) && text@ == hyphenated(uuid)
}

proof fn lemma_first_place(uuids: Seq<Uuid>, uuid: Uuid, i: int)
    requires
        0 <= i < uuids.len(),
        uuids[i] == uuid,
        forall|j: int| 0 <= j < i ==> uuids[j] != uuid,
    ensures
        uuids.index_of_first(uuid) == Some(i),
{
    uuids.index_of_first_ensures(uuid);
    assert(uuids.contains(uuid));
}

proof fn lemma_first_handle<P: Platform>(characs: Seq<KnownCharac<P>>, uuid: Uuid)
    ensures
        forall|k: int| #[trigger]
            is_first_charac(characs, uuid, k) ==> first_handle(characs, uuid) == Some(
                characs[k].handle,
            ),
        lacks_charac(characs, uuid) ==> first_handle(characs, uuid) is None,
{
    let uuids = characs.map_values(|c: KnownCharac<P>| c.uuid);
    assert forall|k: int| #[trigger] is_first_charac(characs, uuid, k) implies first_handle(
        characs,
        uuid,
    ) == Some(characs[k].handle) by {
        assert forall|j: int| 0 <= j < k implies uuids[j] != uuid by {
            assert(characs[j].uuid != uuid);
        }
        lemma_first_place(uuids, uuid, k);
    }
    if lacks_charac(characs, uuid) {
        uuids.index_of_first_ensures(uuid);
        if uuids.contains(uuid) {
            let m = choose|m: int| 0 <= m < uuids.len() && uuids[m] == uuid;
            assert(characs[m].uuid != uuid);
        }
    }
}

proof fn lemma_none_in_first_groups<P: Platform>(
    groups: Seq<Vec<KnownCharac<P>>>,
    n: int,
    uuid: Uuid,
)
    requires
        0 <= n <= groups.len(),
        forall|i: int| 0 <= i < n ==> lacks_charac(#[trigger] groups[i]@, uuid),
    ensures
        first_handle(flat(groups.take(n)), uuid) is None,
    decreases n,
{
    if n == 0 {
        let none = flat(groups.take(0));
        lemma_first_handle(none, uuid);
        assert(lacks_charac(none, uuid));
    } else {
        lemma_none_in_first_groups(groups, n - 1, uuid);
        assert(groups.take(n).drop_last() =~= groups.take(n - 1));
        lemma_first_of_two(flat(groups.take(n - 1)), groups[n - 1]@, uuid);
        assert(lacks_charac(groups[n - 1]@, uuid));
        lemma_first_handle(groups[n - 1]@, uuid);
    }
}

/// A request that names no service gets the first characteristic with the requested UUID, in the order
/// of the services and of the characteristics within them, however many services there are. It gets
/// none exactly if no service has one.
pub proof fn law_unnamed_request_searches_every_service<P: Platform>(
    conn: Connection<P>,
    uuid: Uuid,
    result: Result<Arc<P::Charac>, Error>,
    i: int,
    k: int,
)
    requires
        call_ensures(Connection::<P>::get_charac, (&conn, uuid, None::<Uuid>), result),
    ensures
        0 <= i < conn.characs@.len() && is_first_charac(conn.characs@[i]@, uuid, k) && (forall|m: int|
            0 <= m < i ==> lacks_charac(#[trigger] conn.characs@[m]@, uuid)) ==> result == Ok::<
            Arc<P::Charac>,
            Error,
        >(conn.characs@[i]@[k].handle),
        (forall|m: int|
            0 <= m < conn.characs@.len() ==> lacks_charac(#[trigger] conn.characs@[m]@, uuid))
            ==> is_not_available(result, uuid),
{
    let groups = conn.characs@;
    if 0 <= i < groups.len() && is_first_charac(groups[i]@, uuid, k) && (forall|m: int|
        0 <= m < i ==> lacks_charac(#[trigger] groups[m]@, uuid)) {
        lemma_none_in_first_groups(groups, i, uuid);
        assert(groups.take(i + 1).drop_last() =~= groups.take(i));
        lemma_first_of_two(flat(groups.take(i)), groups[i]@, uuid);
        lemma_first_handle(groups[i]@, uuid);
        lemma_found_in_first_groups(groups, i + 1, uuid);
    }
    if forall|m: int| 0 <= m < groups.len() ==> lacks_charac(#[trigger] groups[m]@, uuid) {
        lemma_none_in_first_groups(groups, groups.len() as int, uuid);
        assert(groups.take(groups.len() as int) =~= groups);
    }
}

/// A request that names a service gets the first characteristic with the requested UUID that the
/// listing has in that service. It gets none exactly if that service has none or is not listed.
pub proof fn law_named_request_searches_that_service<P: Platform>(
    conn: Connection<P>,
    listing: ServiceListing<P>,
    uuid: Uuid,
    service: Uuid,
    result: Result<Arc<P::Charac>, Error>,
    i: int,
    k: int,
)
    requires
        presents_services(conn.services@, listing.services@),
        conn.characs@ == listing.characs@,
        is_matched(listing),
        call_ensures(Connection::<P>::get_charac, (&conn, uuid, Some(service)), result),
    ensures
        is_first_service(listing.services@, service, i) && is_first_charac(
            listing.characs@[i]@,
            uuid,
            k,
        ) ==> result == Ok::<Arc<P::Charac>, Error>(listing.characs@[i]@[k].handle),
        is_first_service(listing.services@, service, i) && lacks_charac(
            listing.characs@[i]@,
            uuid,
        ) ==> is_not_available(result, uuid),
        (forall|m: int|
            0 <= m < listing.services@.len() ==> (#[trigger] listing.services@[m]).uuid != service)
            ==> is_not_available(result, uuid),
{
    law_named_service_gives_its_own_characteristic(conn, listing, uuid, service);
    law_presented_services_are_those_read(conn.services@, listing.services@);
    let uuids = conn.services@.map_values(|s: Service| s.uuid);
    uuids.index_of_first_ensures(service);
    if is_first_service(listing.services@, service, i) {
        assert(uuids[i] == conn.services@[i].uuid);
        assert forall|j: int| 0 <= j < i implies uuids[j] != service by {
            assert(conn.services@[j].uuid == listing.services@[j].uuid);
        }
        lemma_first_place(uuids, service, i);
        lemma_first_handle(listing.characs@[i]@, uuid);
    }
    if forall|m: int|
        0 <= m < listing.services@.len() ==> (#[trigger] listing.services@[m]).uuid != service {
        if let Some(p) = service_place(conn.services@, service) {
            assert(listing.services@[p].uuid == service);
        }
    }
}

/// A connection knows the services and characteristics that were read last, and keeps all else.
pub proof fn law_refreshed_connection_knows_what_was_read<P: Platform>(
    conn: &mut Connection<P>,
    listing: ServiceListing<P>,
    done: (),
)
    requires
        call_ensures(Connection::<P>::refresh_services_characs, (conn, listing), done),
    ensures
        presents_services(final(conn).services@, listing.services@),
        final(conn).characs@ == listing.characs@,
        final(conn).connected_dev == old(conn).connected_dev,
        final(conn).notify_listeners == old(conn).notify_listeners,
        final(conn).device_event_handle == old(conn).device_event_handle,
        final(conn).on_disconnect == old(conn).on_disconnect,
{
}

/// A new connection is one to the given device, knows what was read of it, and has no tasks and no
/// callback.
pub proof fn law_new_connection_knows_what_was_read<P: Platform>(
    device: Arc<DiscoveredDevice<P>>,
    listing: ServiceListing<P>,
    conn: Connection<P>,
)
    requires
        call_ensures(Connection::<P>::build, (device, listing), conn),
    ensures
        conn.connected_dev == device,
        presents_services(conn.services@, listing.services@),
        conn.characs@ == listing.characs@,
        forall|c: Uuid| !conn.notify_listeners@.contains_key(c),
        conn.device_event_handle is None,
        conn.on_disconnect is NoHandler,
{
}

/// A listener that is added comes after those that listen for its characteristic already, and those of
/// all other characteristics stay.
pub proof fn law_added_listener_joins_the_others<P: Platform>(
    conn: &mut Connection<P>,
    c: Uuid,
    task: P::Task,
    done: (),
)
    requires
        call_ensures(Connection::<P>::add_listener, (conn, c, task), done),
    ensures
        final(conn).notify_listeners@.contains_key(c),
        old(conn).notify_listeners@.contains_key(c) ==> final(conn).notify_listeners@[c]@ == old(conn).notify_listeners@[c]@.push(task),
        !old(conn).notify_listeners@.contains_key(c) ==> final(conn).notify_listeners@[c]@ == seq![
            task,
        ],
        forall|other: Uuid| #[trigger]
            old(conn).notify_listeners@.contains_key(other) && other != c ==> final(conn).notify_listeners@.contains_key(other) && final(conn).notify_listeners@[other]@ == old(conn).notify_listeners@[other]@,
{
    assert(Seq::<P::Task>::empty().push(task) =~= seq![task]);
    assert forall|other: Uuid| #[trigger]
        old(conn).notify_listeners@.contains_key(other) && other != c implies final(conn).notify_listeners@.contains_key(other) && final(conn).notify_listeners@[other]@ == old(conn).notify_listeners@[other]@ by {
        assert(final(conn).listeners(other) == old(conn).listeners(other));
    }
}

/// Removing the listeners of a characteristic hands out all of them, in the order of their coming, and
/// leaves those of all other characteristics.
pub proof fn law_removed_listeners_are_all_that_listened<P: Platform>(
    conn: &mut Connection<P>,
    c: Uuid,
    removed: Vec<P::Task>,
)
    requires
        call_ensures(Connection::<P>::remove_listeners, (conn, c), removed),
    ensures
        old(conn).notify_listeners@.contains_key(c) ==> removed@ == old(conn).notify_listeners@[c]@,
        !old(conn).notify_listeners@.contains_key(c) ==> removed@.len() == 0,
        !final(conn).notify_listeners@.contains_key(c),
        forall|other: Uuid|
            other != c ==> final(conn).notify_listeners@.get(other) == old(conn).notify_listeners@.get(other),
{
}

proof fn lemma_flatten_contains<A>(groups: Seq<Seq<A>>, x: A)
    ensures
        groups.flatten().contains(x) <==> exists|i: int|
            0 <= i < groups.len() && (#[trigger] groups[i]).contains(x),
    decreases groups.len(),
{
    if groups.len() > 0 {
        let rest = groups.drop_first();
        lemma_flatten_contains(rest, x);
        let first = groups.first();
        let all = first + rest.flatten();
        assert(groups.flatten() == all);
        if all.contains(x) {
            let k = choose|k: int| 0 <= k < all.len() && all[k] == x;
            if k < first.len() {
                assert(first[k] == x);
                assert(groups[0].contains(x));
            } else {
                assert(rest.flatten()[k - first.len()] == x);
                let i = choose|i: int| 0 <= i < rest.len() && (#[trigger] rest[i]).contains(x);
                assert(groups[i + 1].contains(x));
            }
        }
        if exists|i: int| 0 <= i < groups.len() && (#[trigger] groups[i]).contains(x) {
            let i = choose|i: int| 0 <= i < groups.len() && (#[trigger] groups[i]).contains(x);
            if i == 0 {
                let k = choose|k: int| 0 <= k < first.len() && first[k] == x;
                assert(all[k] == x);
            } else {
                assert(rest[i - 1].contains(x));
                let k = choose|k: int| 0 <= k < rest.flatten().len() && rest.flatten()[k] == x;
                assert(all[first.len() + k] == x);
            }
        }
    }
}

/// A connection that is ended hands out every task that it has and no other: each listener of each
/// characteristic, and last the task that follows the device.
pub proof fn law_ended_connection_hands_out_every_task<P: Platform>(
    conn: Connection<P>,
    tasks: Vec<P::Task>,
    task: P::Task,
)
    requires
        call_ensures(Connection::<P>::close, (conn,), tasks),
    ensures
        tasks@.contains(task) <==> conn.device_event_handle == Some(task) || exists|c: Uuid|
            #[trigger] conn.notify_listeners@.contains_key(c) && conn.notify_listeners@[c]@.contains(
                task,
            ),
        conn.device_event_handle matches Some(last) ==> tasks@.len() > 0 && tasks@.last() == last,
{
    let order = choose|order: Seq<Uuid>| #[trigger]
        order.no_duplicates() && order.to_set() == conn.notify_listeners@.dom() && tasks@
            == order.map_values(|uuid: Uuid| conn.listeners(uuid)).flatten() + (
        match conn.device_event_handle {
            Some(t) => seq![t],
            None => Seq::empty(),
        });
    let groups = order.map_values(|uuid: Uuid| conn.listeners(uuid));
    let end: Seq<P::Task> = match conn.device_event_handle {
        Some(t) => seq![t],
        None => Seq::empty(),
    };
    let all = groups.flatten() + end;
    assert(tasks@ == all);
    lemma_flatten_contains(groups, task);
    if all.contains(task) {
        let k = choose|k: int| 0 <= k < all.len() && all[k] == task;
        if k < groups.flatten().len() {
            assert(groups.flatten()[k] == task);
            let i = choose|i: int| 0 <= i < groups.len() && (#[trigger] groups[i]).contains(task);
            assert(groups[i] == conn.listeners(order[i]));
            assert(order.to_set().contains(order[i]));
        } else {
            assert(end[k - groups.flatten().len()] == task);
        }
    }
    if conn.device_event_handle == Some(task) {
        assert(all[groups.flatten().len() as int] == task);
    }
    if exists|c: Uuid| #[trigger]
        conn.notify_listeners@.contains_key(c) && conn.notify_listeners@[c]@.contains(task) {
        let c = choose|c: Uuid| #[trigger]
            conn.notify_listeners@.contains_key(c) && conn.notify_listeners@[c]@.contains(task);
        assert(order.to_set().contains(c));
        let i = choose|i: int| 0 <= i < order.len() && order[i] == c;
        assert(groups[i].contains(task));
        let k = choose|k: int| 0 <= k < groups.flatten().len() && groups.flatten()[k] == task;
        assert(all[k] == task);
    }
}

} // verus!
