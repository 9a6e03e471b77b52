//! Scanning for devices.
use vstd::prelude::*;

use std::sync::Arc;

use crate::error::{Error, ErrorView};
use crate::filter::{ScanFilter, check_filter, filter_device, is_valid_filter, matches_filter};
use crate::handler::Handler;
use crate::models::{
    BleDevice, DeviceQuery, DeviceReply, DiscoveredDevice, presents, query_goes,
};
use crate::platform::Platform;
use crate::timeout::Timed;

verus! {

/// The nanoseconds of a millisecond.
pub const NANOS_PER_MILLI: u128 = 1_000_000;

/// What is asked of [`Handler::discover`].
#[derive(Debug)]
pub struct DiscoverRequest {
    /// How many milliseconds to scan.
    pub timeout: u64,
    /// Which devices to find.
    pub filter: ScanFilter,
    /// Whether the scan may look for iBeacons.
    pub allow_ibeacons: bool,
    /// Whether each device found is to be reported.
    pub report: bool,
}

/// How far the starting of a scan has come.
#[derive(Debug)]
pub enum DiscoverOp {
    /// Nothing has happened yet.
    Requested(DiscoverRequest),
    /// Stop any scan.
    StoppingScan(DiscoverRequest),
    /// Open the adapter, unless one is open.
    OpeningAdapter(DiscoverRequest),
    /// Start the task that scans. The request is handed to it.
    Spawning(Option<DiscoverRequest>),
    /// Wait until the task tells whether the scan has started.
    AwaitingStart,
    /// All is done.
    Finished(Result<(), Error>),
}

/// An answer to what a [`DiscoverOp`] asks for.
#[derive(Debug)]
pub enum DiscoverEvent<T> {
    /// Begin.
    Proceed,
    /// No scan is running any more.
    ScanStopped,
    /// The adapter is open, or could not be opened.
    AdapterReady(Result<(), Error>),
    /// The task that scans has started.
    Spawned(T),
    /// What the task told about the start of the scan.
    Started(Result<(), Error>),
}

/// The starting of a scan goes from `op` to `next` on `event`, while the handler goes from
/// `before` to `after`. A filter that is not valid is refused before anything is done. An event
/// that answers something else changes nothing.
pub open spec fn discover_goes<P: Platform>(
    before: Handler<P>,
    op: DiscoverOp,
    event: DiscoverEvent<P::Task>,
    after: Handler<P>,
    next: DiscoverOp,
) -> bool {
    match (op, event) {
        (DiscoverOp::Requested(request), DiscoverEvent::Proceed) => {
            &&& after == before
            &&& if is_valid_filter(request.filter) {
                next == DiscoverOp::StoppingScan(request)
            } else {
                next == DiscoverOp::Finished(Err(Error::InvalidFilterMask))
            }
        },
        (DiscoverOp::StoppingScan(request), DiscoverEvent::ScanStopped) => {
            &&& after == (Handler { allow_ibeacons: request.allow_ibeacons, ..before })
            &&& next == DiscoverOp::OpeningAdapter(request)
        },
        (DiscoverOp::OpeningAdapter(request), DiscoverEvent::AdapterReady(ready)) => {
            &&& after == before
            &&& match ready {
                Ok(()) => next == DiscoverOp::Spawning(Some(request)),
                Err(error) => next == DiscoverOp::Finished(Err(error)),
            }
        },
        (DiscoverOp::Spawning(_), DiscoverEvent::Spawned(task)) => {
            &&& after == (Handler { scan_task: Some(task), ..before })
            &&& next == DiscoverOp::AwaitingStart
        },
        (DiscoverOp::AwaitingStart, DiscoverEvent::Started(result)) => {
            &&& after == before
            &&& next == DiscoverOp::Finished(result)
        },
        _ => after == before && next == op,
    }
}

impl DiscoverOp {
    /// The request for the task that scans, while it is to be started. It is handed out once.
    pub fn take_request(&mut self) -> (request: Option<DiscoverRequest>)
        ensures
            match *old(self) {
                DiscoverOp::Spawning(held) => {
                    &&& request == held
                    &&& *final(self) == DiscoverOp::Spawning(None)
                },
                _ => {
                    &&& request is None
                    &&& *final(self) == *old(self)
                },
            },
    {
        match self {
            DiscoverOp::Spawning(held) => held.take(),
            _ => None,
        }
    }
}

/// What the task that scans does next.
#[verifier::reject_recursive_types(P)]
pub enum ScanTask<P: Platform> {
    /// Have the adapter start scanning.
    Opening(DiscoverRequest),
    /// Tell who asked for the scan that it could not be started, and why. The task ends.
    Refused(Error),
    /// Tell who asked for the scan that it has started.
    Starting(DiscoverRequest),
    /// Tell the listeners for scan updates that a scan is running.
    Announcing(DiscoverRequest),
    /// Measure the time since the listeners were told.
    Timing(DiscoverRequest),
    /// Wait for the next device, for so many nanoseconds.
    Scanning(DiscoverRequest, u128),
    /// Put a question to the device that was found.
    Inspecting(DiscoverRequest, DiscoveredDevice<P>, DeviceQuery),
    /// Report the device that was found.
    Reporting(DiscoverRequest, Option<BleDevice>),
    /// Have the adapter stop scanning, and tell the listeners for scan updates that no scan is
    /// running.
    Closing,
    /// The task ends.
    Ended,
}

/// An answer to what a [`ScanTask`] asks for.
pub enum ScanEvent<P: Platform> {
    /// The adapter is scanning, or could not start to.
    Opened(Result<(), String>),
    /// Who asked for the scan has been told.
    Told,
    /// The listeners for scan updates have been told.
    Announced,
    /// So many nanoseconds have passed since the listeners were told.
    Elapsed(u128),
    /// The next device, if the scan has not ended, or the time was up.
    Next(Timed<Option<DiscoveredDevice<P>>>),
    /// The answer of the device.
    Reply(DeviceReply),
    /// The device has been reported.
    Reported,
}

/// The nanoseconds that are left of `timeout` milliseconds when `elapsed` nanoseconds have
/// passed.
pub open spec fn nanos_left(timeout: u64, elapsed: u128) -> int {
    if elapsed < timeout * NANOS_PER_MILLI {
        timeout * NANOS_PER_MILLI - elapsed
    } else {
        0
    }
}

fn remaining(timeout: u64, elapsed: u128) -> (left: u128)
    ensures
        left == nanos_left(timeout, elapsed),
{
    let total: u128 = timeout as u128 * NANOS_PER_MILLI;
    if elapsed < total {
        total - elapsed
    } else {
        0
    }
}

/// `next` is what follows when the questions to `device` stand at `query`, while the handler goes
/// from `before` to `after`. A device that answered and matches the filter is known from then on,
/// with its newest advertisement, and is reported if reports are wanted. Any other device is
/// dropped.
pub open spec fn after_inspection<P: Platform>(
    before: Handler<P>,
    request: DiscoverRequest,
    device: DiscoveredDevice<P>,
    query: DeviceQuery,
    after: Handler<P>,
    next: ScanTask<P>,
) -> bool {
    match query {
        DeviceQuery::Finished(Ok(shown)) => if matches_filter(device.adv_data, request.filter) {
            &&& after == (Handler { known_devices: after.known_devices, ..before })
            &&& after.known_devices@ == before.known_devices@.insert(device.id@, Arc::new(device))
            &&& if request.report {
                next == ScanTask::<P>::Reporting(request, Some(shown))
            } else {
                next == ScanTask::<P>::Timing(request)
            }
        } else {
            &&& after == before
            &&& next == ScanTask::<P>::Timing(request)
        },
        DeviceQuery::Finished(Err(_)) => after == before && next == ScanTask::<P>::Timing(request),
        _ => after == before && next == ScanTask::Inspecting(request, device, query),
    }
}

/// The task that scans goes from `task` to `next` on `event`, while the handler goes from
/// `before` to `after`. A new scan forgets the devices of the last one. It ends when the time is
/// up or when the adapter finds nothing more. An event that answers something else changes
/// nothing.
pub open spec fn scan_goes<P: Platform>(
    before: Handler<P>,
    task: ScanTask<P>,
    event: ScanEvent<P>,
    after: Handler<P>,
    next: ScanTask<P>,
) -> bool {
    match (task, event) {
        (ScanTask::Opening(request), ScanEvent::Opened(opened)) => {
            &&& after == before
            &&& match opened {
                Ok(()) => next == ScanTask::<P>::Starting(request),
                Err(message) => next matches ScanTask::Refused(error) && error@
                    == ErrorView::Btleplug(message@),
            }
        },
        (ScanTask::Starting(request), ScanEvent::Told) => {
            &&& after == (Handler { known_devices: after.known_devices, ..before })
            &&& after.known_devices@ == Map::<Seq<char>, Arc<DiscoveredDevice<P>>>::empty()
            &&& next == ScanTask::<P>::Announcing(request)
        },
        (ScanTask::Announcing(request), ScanEvent::Announced) => {
            &&& after == before
            &&& next == ScanTask::<P>::Timing(request)
        },
        (ScanTask::Timing(request), ScanEvent::Elapsed(elapsed)) => {
            &&& after == before
            &&& next matches ScanTask::Scanning(r, within) && r == request && within == nanos_left(
                request.timeout,
                elapsed,
            )
        },
        (ScanTask::Scanning(request, _), ScanEvent::Next(item)) => {
            &&& after == before
            &&& match item {
                Timed::Finished(Some(device)) => next == ScanTask::Inspecting(
                    request,
                    device,
                    DeviceQuery::Connected,
                ),
                _ => next == ScanTask::<P>::Closing,
            }
        },
        (ScanTask::Inspecting(request, device, query), ScanEvent::Reply(reply)) => {
            exists|moved: DeviceQuery| #[trigger]
                query_goes(device, query, reply, moved) && after_inspection(
                    before,
                    request,
                    device,
                    moved,
                    after,
                    next,
                )
        },
        (ScanTask::Reporting(request, _), ScanEvent::Reported) => {
            &&& after == before
            &&& next == ScanTask::<P>::Timing(request)
        },
        (ScanTask::Closing, ScanEvent::Announced) => {
            &&& after == before
            &&& next == ScanTask::<P>::Ended
        },
        _ => after == before && next == task,
    }
}

impl<P: Platform> ScanTask<P> {
    /// The status to tell the listeners for scan updates, if it is time to.
    pub fn announcement(&self) -> (status: Option<bool>)
        ensures
            status == match *self {
                ScanTask::Announcing(_) => Some(true),
                ScanTask::Closing => Some(false),
                _ => None,
            },
    {
        match self {
            ScanTask::Announcing(_) => Some(true),
            ScanTask::Closing => Some(false),
            _ => None,
        }
    }

    /// The device to report, while it is its turn. It is handed out once.
    pub fn take_report(&mut self) -> (report: Option<BleDevice>)
        ensures
            match *old(self) {
                ScanTask::Reporting(request, held) => {
                    &&& report == held
                    &&& *final(self) == ScanTask::<P>::Reporting(request, None)
                },
                _ => {
                    &&& report is None
                    &&& *final(self) == *old(self)
                },
            },
    {
        match self {
            ScanTask::Reporting(_, held) => held.take(),
            _ => None,
        }
    }
}

impl<P: Platform> Handler<P> {
    /// Moves the starting of a scan on by one answer.
    pub fn discover(&mut self, op: DiscoverOp, event: DiscoverEvent<P::Task>) -> (next: DiscoverOp)
        ensures
            discover_goes(*old(self), op, event, *final(self), next),
    {
        match (op, event) {
            (DiscoverOp::Requested(request), DiscoverEvent::Proceed) => match check_filter(
                &request.filter,
            ) {
                Ok(()) => DiscoverOp::StoppingScan(request),
                Err(_) => DiscoverOp::Finished(Err(Error::InvalidFilterMask)),
            },
            (DiscoverOp::StoppingScan(request), DiscoverEvent::ScanStopped) => {
                self.allow_ibeacons = request.allow_ibeacons;
                DiscoverOp::OpeningAdapter(request)
            },
            (
                DiscoverOp::OpeningAdapter(request),
                DiscoverEvent::AdapterReady(ready),
            ) => match ready {
                Ok(()) => DiscoverOp::Spawning(Some(request)),
                Err(error) => DiscoverOp::Finished(Err(error)),
            },
            (DiscoverOp::Spawning(_), DiscoverEvent::Spawned(task)) => {
                self.scan_task = Some(task);
                DiscoverOp::AwaitingStart
            },
            (DiscoverOp::AwaitingStart, DiscoverEvent::Started(result)) => {
                DiscoverOp::Finished(result)
            },
            (op, _) => op,
        }
    }

    /// Moves the task that scans on by one answer.
    pub fn discover_handler(&mut self, task: ScanTask<P>, event: ScanEvent<P>) -> (next: ScanTask<
        P,
    >)
        ensures
            scan_goes(*old(self), task, event, *final(self), next),
    {
        match (task, event) {
            (ScanTask::Opening(request), ScanEvent::Opened(opened)) => match opened {
                Ok(()) => ScanTask::Starting(request),
                Err(message) => ScanTask::Refused(Error::Btleplug(message)),
            },
            (ScanTask::Starting(request), ScanEvent::Told) => {
                self.known_devices.clear();
                ScanTask::Announcing(request)
            },
            (ScanTask::Announcing(request), ScanEvent::Announced) => ScanTask::Timing(request),
            (ScanTask::Timing(request), ScanEvent::Elapsed(elapsed)) => {
                let within: u128 = remaining(request.timeout, elapsed);
                ScanTask::Scanning(request, within)
            },
            (ScanTask::Scanning(request, _), ScanEvent::Next(item)) => match item {
                Timed::Finished(Some(device)) => ScanTask::Inspecting(
                    request,
                    device,
                    DeviceQuery::Connected,
                ),
                _ => ScanTask::Closing,
            },
            (ScanTask::Inspecting(request, device, query), ScanEvent::Reply(reply)) => {
                let moved = BleDevice::from_bluest(&device, query, reply);
                assert(query_goes(device, query, reply, moved));
                match moved {
                    DeviceQuery::Finished(Ok(shown)) => {
                        if !filter_device(&device, &request.filter) {
                            return ScanTask::Timing(request);
                        }
                        self.known_devices.insert(device.id.clone(), Arc::new(device));
                        if request.report {
                            ScanTask::Reporting(request, Some(shown))
                        } else {
                            ScanTask::Timing(request)
                        }
                    },
                    DeviceQuery::Finished(Err(_)) => ScanTask::Timing(request),
                    moved => ScanTask::Inspecting(request, device, moved),
                }
            },
            (ScanTask::Reporting(request, _), ScanEvent::Reported) => ScanTask::Timing(request),
            (ScanTask::Closing, ScanEvent::Announced) => ScanTask::Ended,
            (task, _) => task,
        }
    }
}

/// Every known device matches `filter`.
pub open spec fn knows_only_matching<P: Platform>(handler: Handler<P>, filter: ScanFilter) -> bool {
    forall|address: Seq<char>| #[trigger]
        handler.known_devices@.contains_key(address) ==> matches_filter(
            handler.known_devices@[address].adv_data,
            filter,
        )
}

/// Every known device is known under its own address.
pub open spec fn knows_by_address<P: Platform>(handler: Handler<P>) -> bool {
    forall|address: Seq<char>| #[trigger]
        handler.known_devices@.contains_key(address) ==> handler.known_devices@[address].id@
            == address
}

/// The request that a scan serves, while it does.
pub open spec fn scan_request<P: Platform>(task: ScanTask<P>) -> Option<DiscoverRequest> {
    match task {
        ScanTask::Opening(request)
        | ScanTask::Starting(request)
        | ScanTask::Announcing(request)
        | ScanTask::Timing(request)
        | ScanTask::Scanning(request, _)
        | ScanTask::Inspecting(request, _, _)
        | ScanTask::Reporting(request, _) => Some(request),
        _ => None,
    }
}

/// The devices of an earlier scan are still known: this one has not begun to collect.
pub open spec fn has_not_begun<P: Platform>(task: ScanTask<P>) -> bool {
    task is Opening || task is Refused || task is Starting
}

/// A device is inspected only as long as there are questions to put to it.
pub open spec fn is_scan_state<P: Platform>(task: ScanTask<P>) -> bool {
    task matches ScanTask::Inspecting(_, _, query) ==> query !is Finished
}

/// A scan that starts well never inspects a device that has answered everything.
pub proof fn law_scan_states_are_kept<P: Platform>(
    before: Handler<P>,
    task: ScanTask<P>,
    event: ScanEvent<P>,
    after: Handler<P>,
    next: ScanTask<P>,
)
    requires
        scan_goes(before, task, event, after, next),
        is_scan_state(task),
    ensures
        is_scan_state(next),
{
}

/// A scan serves one request from its beginning to its end.
pub proof fn law_scan_keeps_its_request<P: Platform>(
    before: Handler<P>,
    task: ScanTask<P>,
    event: ScanEvent<P>,
    after: Handler<P>,
    next: ScanTask<P>,
)
    requires
        scan_goes(before, task, event, after, next),
        scan_request(next) is Some,
    ensures
        scan_request(task) == scan_request(next),
{
}

/// Only devices that match the filter are found: from the moment when the scan begins to collect,
/// every known device matches.
pub proof fn law_scan_finds_only_matching_devices<P: Platform>(
    before: Handler<P>,
    task: ScanTask<P>,
    event: ScanEvent<P>,
    after: Handler<P>,
    next: ScanTask<P>,
    request: DiscoverRequest,
)
    requires
        scan_goes(before, task, event, after, next),
        scan_request(task) == Some(request),
        !has_not_begun(task) ==> knows_only_matching(before, request.filter),
        !has_not_begun(next),
    ensures
        knows_only_matching(after, request.filter),
{
}

/// A scan keeps every device under its own address.
pub proof fn law_scan_keeps_addresses<P: Platform>(
    before: Handler<P>,
    task: ScanTask<P>,
    event: ScanEvent<P>,
    after: Handler<P>,
    next: ScanTask<P>,
)
    requires
        scan_goes(before, task, event, after, next),
        knows_by_address(before),
    ensures
        knows_by_address(after),
{
}

/// Every device that is reported matches the filter, and is known under the reported address.
pub proof fn law_reported_device_is_known<P: Platform>(
    before: Handler<P>,
    task: ScanTask<P>,
    event: ScanEvent<P>,
    after: Handler<P>,
    next: ScanTask<P>,
)
    requires
        scan_goes(before, task, event, after, next),
        is_scan_state(task),
        task !is Reporting,
        next is Reporting,
    ensures
        next matches ScanTask::Reporting(request, Some(shown)) && {
            &&& request.report
            &&& after.known_devices@.contains_key(shown.address@)
            &&& matches_filter(
                after.known_devices@[shown.address@].adv_data,
                request.filter,
            )
        },
{
    if let (ScanTask::Inspecting(request, device, query), ScanEvent::Reply(reply)) = (task, event) {
        let moved = choose|moved: DeviceQuery| #[trigger]
            query_goes(device, query, reply, moved) && after_inspection(
                before,
                request,
                device,
                moved,
                after,
                next,
            );
        assert(after_inspection(before, request, device, moved, after, next));
    }
}

/// A scan never waits for a device beyond its time: what has passed and what it waits together are
/// the requested duration, and nothing once that is over.
pub proof fn law_scan_ends_in_time<P: Platform>(
    before: Handler<P>,
    request: DiscoverRequest,
    elapsed: u128,
    after: Handler<P>,
    next: ScanTask<P>,
)
    requires
        scan_goes(before, ScanTask::Timing(request), ScanEvent::Elapsed(elapsed), after, next),
    ensures
        next matches ScanTask::Scanning(_, within) && {
            &&& elapsed <= request.timeout * NANOS_PER_MILLI ==> elapsed + within
                == request.timeout * NANOS_PER_MILLI
            &&& elapsed > request.timeout * NANOS_PER_MILLI ==> within == 0
        },
{
}

/// The time that a scan waits for a device depends only on its duration and on the time that has
/// passed, to the nanosecond, whatever it knows by then.
pub proof fn law_scan_waits_for_what_is_left<P: Platform>(
    before: Handler<P>,
    request: DiscoverRequest,
    elapsed: u128,
    after: Handler<P>,
    next: ScanTask<P>,
)
    requires
        scan_goes(before, ScanTask::Timing(request), ScanEvent::Elapsed(elapsed), after, next),
    ensures
        after == before,
        next matches ScanTask::Scanning(r, within) && {
            &&& r == request
            &&& within == if elapsed <= request.timeout * 1_000_000 {
                request.timeout * 1_000_000 - elapsed
            } else {
                0
            }
        },
{
}

/// A scan with an invalid filter is refused, and a running scan goes on.
pub proof fn law_invalid_filter_is_refused<P: Platform>(
    before: Handler<P>,
    request: DiscoverRequest,
    after: Handler<P>,
    next: DiscoverOp,
)
    requires
        !is_valid_filter(request.filter),
        discover_goes(before, DiscoverOp::Requested(request), DiscoverEvent::Proceed, after, next),
    ensures
        next == DiscoverOp::Finished(Err(Error::InvalidFilterMask)),
        after == before,
{
}

/// The task that scans touches nothing but the known devices.
pub proof fn law_scanning_touches_only_the_known_devices<P: Platform>(
    before: Handler<P>,
    task: ScanTask<P>,
    event: ScanEvent<P>,
    after: Handler<P>,
    next: ScanTask<P>,
)
    requires
        scan_goes(before, task, event, after, next),
    ensures
        after == (Handler { known_devices: after.known_devices, ..before }),
{
}

/// The starting of a scan leaves the known devices and the connection as they are.
pub proof fn law_starting_a_scan_keeps_devices_and_connection<P: Platform>(
    before: Handler<P>,
    op: DiscoverOp,
    event: DiscoverEvent<P::Task>,
    after: Handler<P>,
    next: DiscoverOp,
)
    requires
        discover_goes(before, op, event, after, next),
    ensures
        after == (Handler {
            scan_task: after.scan_task,
            allow_ibeacons: after.allow_ibeacons,
            ..before
        }),
{
}

/// One step of the task that scans.
#[verifier::reject_recursive_types(P)]
pub struct ScanStep<P: Platform> {
    pub before: Handler<P>,
    pub task: ScanTask<P>,
    pub event: ScanEvent<P>,
    pub after: Handler<P>,
    pub next: ScanTask<P>,
}

/// A device that a scan found, and how it answered.
pub struct Finding<P: Platform> {
    pub device: DiscoveredDevice<P>,
    pub is_connected: bool,
    pub rssi: Option<i16>,
    pub is_bonded: bool,
}

impl<P: Platform> ScanStep<P> {
    /// The step is one that the task can take.
    pub open spec fn goes(self) -> bool {
        scan_goes(self.before, self.task, self.event, self.after, self.next)
    }

    /// The device that has answered the last question in this step, if it matches the filter.
    pub open spec fn finding(self) -> Option<Finding<P>> {
        match (self.task, self.event) {
            (
                ScanTask::Inspecting(request, device, DeviceQuery::Paired { is_connected, rssi }),
                ScanEvent::Reply(DeviceReply::Paired(Ok(is_bonded))),
            ) => if matches_filter(device.adv_data, request.filter) {
                Some(Finding { device, is_connected, rssi, is_bonded })
            } else {
                None
            },
            _ => None,
        }
    }

    /// The device whose turn to be reported has come in this step.
    pub open spec fn report(self) -> Option<BleDevice> {
        match (self.task, self.next) {
            (ScanTask::Inspecting(..), ScanTask::Reporting(_, held)) => held,
            _ => None,
        }
    }
}

/// `steps` are the steps of a scan for `request`, from its beginning. A report may be taken out while
/// it is made, and nothing but the scan changes which devices are known.
pub open spec fn is_scan_run<P: Platform>(request: DiscoverRequest, steps: Seq<ScanStep<P>>) -> bool {
    &&& steps.len() > 0
    &&& steps[0].task == ScanTask::<P>::Opening(request)
    &&& forall|i: int| 0 <= i < steps.len() ==> #[trigger] steps[i].goes()
    &&& forall|i: int|
        #![trigger steps[i]]
        0 < i < steps.len() ==> steps[i].before.known_devices@ == steps[i
            - 1].after.known_devices@ && (steps[i].task == steps[i - 1].next || (steps[i
            - 1].next is Reporting && steps[i].task == ScanTask::<P>::Reporting(request, None)))
}

/// The devices that were found in `steps`, in their order.
pub open spec fn findings<P: Platform>(steps: Seq<ScanStep<P>>) -> Seq<Finding<P>>
    decreases steps.len(),
{
    if steps.len() == 0 {
        Seq::empty()
    } else {
        match steps.last().finding() {
            Some(finding) => findings(steps.drop_last()).push(finding),
            None => findings(steps.drop_last()),
        }
    }
}

/// The devices that were reported in `steps`, in their order.
pub open spec fn reports<P: Platform>(steps: Seq<ScanStep<P>>) -> Seq<BleDevice>
    decreases steps.len(),
{
    if steps.len() == 0 {
        Seq::empty()
    } else {
        match steps.last().report() {
            Some(shown) => reports(steps.drop_last()).push(shown),
            None => reports(steps.drop_last()),
        }
    }
}

/// The devices that are known when `found` were found one after the other: each by its address, and
/// of those with one address the last.
pub open spec fn known_after<P: Platform>(found: Seq<Finding<P>>) -> Map<
    Seq<char>,
    Arc<DiscoveredDevice<P>>,
>
    decreases found.len(),
{
    if found.len() == 0 {
        Map::empty()
    } else {
        let device = found.last().device;
        known_after(found.drop_last()).insert(device.id@, Arc::new(device))
    }
}

/// `shown` presents the device that was found, with its answers.
pub open spec fn reports_finding<P: Platform>(shown: BleDevice, finding: Finding<P>) -> bool {
    presents(shown, finding.device, finding.is_connected, finding.rssi, finding.is_bonded)
}

/// What holds of a scan that stands at `task`.
spec fn scan_fits<P: Platform>(
    request: DiscoverRequest,
    task: ScanTask<P>,
    known: Map<Seq<char>, Arc<DiscoveredDevice<P>>>,
    found: Seq<Finding<P>>,
    reported: Seq<BleDevice>,
) -> bool {
    &&& is_scan_state(task)
    &&& scan_request(task) is Some ==> scan_request(task) == Some(request)
    &&& has_not_begun(task) ==> found.len() == 0
    &&& !has_not_begun(task) ==> known == known_after(found)
    &&& reported.len() == if request.report {
        found.len()
    } else {
        0
    }
    &&& forall|i: int|
        0 <= i < reported.len() ==> reports_finding(#[trigger] reported[i], found[i])
}

/// One step keeps what holds of a scan.
proof fn lemma_scan_step_fits<P: Platform>(
    request: DiscoverRequest,
    step: ScanStep<P>,
    found: Seq<Finding<P>>,
    reported: Seq<BleDevice>,
)
    requires
        step.goes(),
        scan_fits(request, step.task, step.before.known_devices@, found, reported),
    ensures
        scan_fits(
            request,
            step.next,
            step.after.known_devices@,
            match step.finding() {
                Some(finding) => found.push(finding),
                None => found,
            },
            match step.report() {
                Some(shown) => reported.push(shown),
                None => reported,
            },
        ),
{
    law_scan_states_are_kept(step.before, step.task, step.event, step.after, step.next);
    if let (ScanTask::Inspecting(r, device, query), ScanEvent::Reply(reply)) = (
        step.task,
        step.event,
    ) {
        let moved = choose|moved: DeviceQuery| #[trigger]
            query_goes(device, query, reply, moved) && after_inspection(
                step.before,
                r,
                device,
                moved,
                step.after,
                step.next,
            );
        assert(after_inspection(step.before, r, device, moved, step.after, step.next));
        if let Some(finding) = step.finding() {
            assert(found.push(finding).drop_last() =~= found);
        }
    }
}

proof fn lemma_scan_fits<P: Platform>(request: DiscoverRequest, steps: Seq<ScanStep<P>>)
    requires
        is_scan_run(request, steps),
    ensures
        scan_fits(
            request,
            steps.last().next,
            steps.last().after.known_devices@,
            findings(steps),
            reports(steps),
        ),
    decreases steps.len(),
{
    let last = steps[steps.len() - 1];
    let init = steps.drop_last();
    assert(last.goes());
    if steps.len() == 1 {
        assert(findings(init) =~= Seq::empty());
        assert(reports(init) =~= Seq::empty());
    } else {
        assert forall|i: int| 0 <= i < init.len() implies #[trigger] init[i].goes() by {
            assert(steps[i].goes());
        }
        assert forall|i: int| #![trigger init[i]] 0 < i < init.len() implies
            init[i].before.known_devices@ == init[i - 1].after.known_devices@ && (init[i].task
            == init[i - 1].next || (init[i - 1].next is Reporting && init[i].task
            == ScanTask::<P>::Reporting(request, None))) by {
            assert(steps[i] == init[i]);
            assert(steps[i - 1] == init[i - 1]);
        }
        lemma_scan_fits(request, init);
        assert(last.before.known_devices@ == steps[steps.len() - 2].after.known_devices@);
    }
    lemma_scan_step_fits(request, last, findings(init), reports(init));
}

/// From the moment when a scan begins to collect, exactly those devices are known that it found: that
/// answered and match the filter, each with its newest advertisement.
pub proof fn law_scan_knows_what_it_found<P: Platform>(
    request: DiscoverRequest,
    steps: Seq<ScanStep<P>>,
)
    requires
        is_scan_run(request, steps),
        !has_not_begun(steps.last().next),
    ensures
        steps.last().after.known_devices@ == known_after(findings(steps)),
{
    lemma_scan_fits(request, steps);
}

/// A scan that is to report reports exactly the devices that it found, in their order and each time
/// once. Any other scan reports nothing.
pub proof fn law_scan_reports_what_it_found<P: Platform>(
    request: DiscoverRequest,
    steps: Seq<ScanStep<P>>,
)
    requires
        is_scan_run(request, steps),
    ensures
        request.report ==> reports(steps).len() == findings(steps).len() && forall|i: int|
            0 <= i < findings(steps).len() ==> reports_finding(
                #[trigger] reports(steps)[i],
                findings(steps)[i],
            ),
        !request.report ==> reports(steps).len() == 0,
{
    lemma_scan_fits(request, steps);
}

/// The devices that the adapter yielded in `steps` while the scan waited for one, in their order.
pub open spec fn yielded<P: Platform>(steps: Seq<ScanStep<P>>) -> Seq<DiscoveredDevice<P>>
    decreases steps.len(),
{
    if steps.len() == 0 {
        Seq::empty()
    } else {
        match (steps.last().task, steps.last().event) {
            (ScanTask::Scanning(..), ScanEvent::Next(Timed::Finished(Some(device)))) => yielded(
                steps.drop_last(),
            ).push(device),
            _ => yielded(steps.drop_last()),
        }
    }
}

/// The devices that have answered the question for their pairing in `steps`, or failed to, in their
/// order.
pub open spec fn settled<P: Platform>(steps: Seq<ScanStep<P>>) -> Seq<DiscoveredDevice<P>>
    decreases steps.len(),
{
    if steps.len() == 0 {
        Seq::empty()
    } else {
        match (steps.last().task, steps.last().event) {
            (
                ScanTask::Inspecting(_, device, DeviceQuery::Paired { .. }),
                ScanEvent::Reply(DeviceReply::Paired(_)),
            ) => settled(steps.drop_last()).push(device),
            _ => settled(steps.drop_last()),
        }
    }
}

/// The device that is being asked, if there is one.
pub open spec fn being_asked<P: Platform>(task: ScanTask<P>) -> Seq<DiscoveredDevice<P>> {
    match task {
        ScanTask::Inspecting(_, device, _) => seq![device],
        _ => Seq::empty(),
    }
}

proof fn lemma_shorter_scan_run<P: Platform>(request: DiscoverRequest, steps: Seq<ScanStep<P>>)
    requires
        is_scan_run(request, steps),
        steps.len() > 1,
    ensures
        is_scan_run(request, steps.drop_last()),
{
    let init = steps.drop_last();
    assert forall|i: int| 0 <= i < init.len() implies #[trigger] init[i].goes() by {
        assert(steps[i].goes());
    }
    assert forall|i: int| #![trigger init[i]] 0 < i < init.len() implies
        init[i].before.known_devices@ == init[i - 1].after.known_devices@ && (init[i].task == init[i
        - 1].next || (init[i - 1].next is Reporting && init[i].task == ScanTask::<P>::Reporting(
        request,
        None,
    ))) by {
        assert(steps[i] == init[i]);
        assert(steps[i - 1] == init[i - 1]);
    }
}

proof fn lemma_step_asks_what_was_yielded<P: Platform>(
    step: ScanStep<P>,
    asked: Seq<DiscoveredDevice<P>>,
    all: Seq<DiscoveredDevice<P>>,
)
    requires
        step.goes(),
        is_scan_state(step.task),
        asked + being_asked(step.task) == all,
    ensures
        is_scan_state(step.next),
        (match (step.task, step.event) {
            (
                ScanTask::Inspecting(_, device, DeviceQuery::Paired { .. }),
                ScanEvent::Reply(DeviceReply::Paired(_)),
            ) => asked.push(device),
            _ => asked,
        }) + being_asked(step.next) == (match (step.task, step.event) {
            (ScanTask::Scanning(..), ScanEvent::Next(Timed::Finished(Some(device)))) => all.push(
                device,
            ),
            _ => all,
        }),
{
    law_scan_states_are_kept(step.before, step.task, step.event, step.after, step.next);
    if let (ScanTask::Inspecting(r, device, query), ScanEvent::Reply(reply)) = (
        step.task,
        step.event,
    ) {
        let moved = choose|moved: DeviceQuery| #[trigger]
            query_goes(device, query, reply, moved) && after_inspection(
                step.before,
                r,
                device,
                moved,
                step.after,
                step.next,
            );
        assert(after_inspection(step.before, r, device, moved, step.after, step.next));
        assert(all =~= asked.push(device));
        assert(asked.push(device) + Seq::<DiscoveredDevice<P>>::empty() =~= asked.push(device));
    }
    if let (ScanTask::Scanning(..), ScanEvent::Next(Timed::Finished(Some(device)))) = (
        step.task,
        step.event,
    ) {
        assert(asked =~= all);
        assert(asked + seq![device] =~= all.push(device));
    }
}

proof fn lemma_asks_what_was_yielded<P: Platform>(request: DiscoverRequest, steps: Seq<ScanStep<P>>)
    requires
        is_scan_run(request, steps),
    ensures
        is_scan_state(steps.last().next),
        settled(steps) + being_asked(steps.last().next) == yielded(steps),
    decreases steps.len(),
{
    let last = steps[steps.len() - 1];
    let init = steps.drop_last();
    assert(last.goes());
    if steps.len() == 1 {
        assert(settled(init) =~= Seq::empty());
        assert(yielded(init) =~= Seq::empty());
        assert(settled(init) + being_asked(last.task) =~= yielded(init));
    } else {
        lemma_shorter_scan_run(request, steps);
        lemma_asks_what_was_yielded(request, init);
        assert(being_asked(last.task) =~= being_asked(steps[steps.len() - 2].next));
    }
    lemma_step_asks_what_was_yielded(last, settled(init), yielded(init));
}

/// Every device that the adapter yields while the scan waits for one is asked all questions, one device
/// after the other: those that have answered, and then the one that is being asked, are exactly those
/// that were yielded.
pub proof fn law_every_yielded_device_is_asked<P: Platform>(
    request: DiscoverRequest,
    steps: Seq<ScanStep<P>>,
)
    requires
        is_scan_run(request, steps),
    ensures
        settled(steps) + being_asked(steps.last().next) == yielded(steps),
{
    lemma_asks_what_was_yielded(request, steps);
}

/// A scan that has begun closes only when its time is up or when the adapter has no more devices, and
/// then it does. It ends only after that.
pub proof fn law_scan_closes_only_at_its_end<P: Platform>(step: ScanStep<P>)
    requires
        step.goes(),
        is_scan_state(step.task),
    ensures
        step.next is Closing && step.task !is Closing ==> step.task is Scanning && ((step.event
            matches ScanEvent::Next(Timed::Elapsed)) || (step.event matches ScanEvent::Next(
            Timed::Finished(None),
        ))),
        step.task is Scanning && ((step.event matches ScanEvent::Next(Timed::Elapsed)) || (step.event
            matches ScanEvent::Next(Timed::Finished(None)))) ==> step.next is Closing,
        step.next is Ended && step.task !is Ended ==> step.task is Closing,
        step.next is Refused && step.task !is Refused ==> step.task is Opening && (step.event
            matches ScanEvent::Opened(Err(_))),
{
    if let (ScanTask::Inspecting(r, device, query), ScanEvent::Reply(reply)) = (
        step.task,
        step.event,
    ) {
        let moved = choose|moved: DeviceQuery| #[trigger]
            query_goes(device, query, reply, moved) && after_inspection(
                step.before,
                r,
                device,
                moved,
                step.after,
                step.next,
            );
        assert(after_inspection(step.before, r, device, moved, step.after, step.next));
    }
}

/// A scan moves on with each answer that it waits for, whatever devices it knows by then: once begun it
/// waits again and again for what is left of its time.
pub proof fn law_scan_moves_on_with_each_answer<P: Platform>(
    step: ScanStep<P>,
    request: DiscoverRequest,
)
    requires
        step.goes(),
    ensures
        step.task == ScanTask::<P>::Opening(request) && (step.event matches ScanEvent::Opened(Ok(_)))
            ==> step.next == ScanTask::<P>::Starting(request),
        step.task == ScanTask::<P>::Opening(request) ==> (step.event matches ScanEvent::Opened(
            Err(message),
        ) ==> (step.next matches ScanTask::Refused(Error::Btleplug(text)) && text@ == message@)),
        step.task == ScanTask::<P>::Starting(request) && step.event is Told ==> step.next
            == ScanTask::<P>::Announcing(request) && forall|address: Seq<char>|
            !step.after.known_devices@.contains_key(address),
        step.task == ScanTask::<P>::Announcing(request) && step.event is Announced ==> step.next
            == ScanTask::<P>::Timing(request),
        step.task == ScanTask::<P>::Timing(request) && step.event is Elapsed ==> (step.next
            matches ScanTask::Scanning(r, _) && r == request),
        (step.task matches ScanTask::Reporting(r, _) && r == request) && step.event is Reported
            ==> step.next == ScanTask::<P>::Timing(request),
        step.task is Closing && step.event is Announced ==> step.next is Ended,
{
}

/// A device that has answered everything goes back to waiting or is reported; which of them depends
/// only on whether it matches the filter and whether reports are wanted.
pub proof fn law_answered_device_is_kept_or_dropped<P: Platform>(
    step: ScanStep<P>,
    request: DiscoverRequest,
    device: DiscoveredDevice<P>,
    is_connected: bool,
    rssi: Option<i16>,
    paired: Result<bool, String>,
)
    requires
        step.goes(),
        step.task == ScanTask::Inspecting(
            request,
            device,
            DeviceQuery::Paired { is_connected, rssi },
        ),
        step.event == ScanEvent::<P>::Reply(DeviceReply::Paired(paired)),
    ensures
        paired is Ok && matches_filter(device.adv_data, request.filter) ==> {
            &&& step.after.known_devices@.contains_key(device.id@)
            &&& step.after.known_devices@[device.id@] == Arc::new(device)
            &&& request.report ==> (step.next matches ScanTask::Reporting(r, Some(shown)) && r
                == request && shown.address@ == device.id@ && shown.rssi == rssi
                && shown.is_connected == is_connected && shown.is_bonded == paired->Ok_0)
            &&& !request.report ==> step.next == ScanTask::<P>::Timing(request)
            &&& forall|other: Seq<char>|
                other != device.id@ ==> step.after.known_devices@.get(other)
                    == step.before.known_devices@.get(other)
        },
        paired is Err || !matches_filter(device.adv_data, request.filter) ==> step.next
            == ScanTask::<P>::Timing(request) && step.after == step.before,
{
    let query = DeviceQuery::Paired { is_connected, rssi };
    let reply = DeviceReply::Paired(paired);
    let moved = choose|moved: DeviceQuery| #[trigger]
        query_goes(device, query, reply, moved) && after_inspection(
            step.before,
            request,
            device,
            moved,
            step.after,
            step.next,
        );
    assert(after_inspection(step.before, request, device, moved, step.after, step.next));
}

/// The task that scans moves as it is said to.
pub proof fn law_scan_moves_as_said<P: Platform>(
    handler: &mut Handler<P>,
    task: ScanTask<P>,
    event: ScanEvent<P>,
    next: ScanTask<P>,
)
    requires
        call_ensures(Handler::<P>::discover_handler, (handler, task, event), next),
    ensures
        scan_goes(*old(handler), task, event, *final(handler), next),
{
}

/// The starting of a scan moves as it is said to.
pub proof fn law_starting_moves_as_said<P: Platform>(
    handler: &mut Handler<P>,
    op: DiscoverOp,
    event: DiscoverEvent<P::Task>,
    next: DiscoverOp,
)
    requires
        call_ensures(Handler::<P>::discover, (handler, op, event), next),
    ensures
        discover_goes(*old(handler), op, event, *final(handler), next),
{
}

/// A device that is to be reported is handed out once, unchanged; so is the request to the task that
/// scans.
pub proof fn law_reports_and_requests_are_handed_out_once<P: Platform>(
    task: &mut ScanTask<P>,
    report: Option<BleDevice>,
    op: &mut DiscoverOp,
    request: Option<DiscoverRequest>,
)
    requires
        call_ensures(ScanTask::<P>::take_report, (task,), report),
        call_ensures(DiscoverOp::take_request, (op,), request),
    ensures
        *old(task) matches ScanTask::Reporting(r, held) ==> report == held && *final(task)
            == ScanTask::<P>::Reporting(r, None),
        *old(task) !is Reporting ==> report is None && *final(task) == *old(task),
        *old(op) matches DiscoverOp::Spawning(held) ==> request == held && *final(op)
            == DiscoverOp::Spawning(None),
        *old(op) !is Spawning ==> request is None && *final(op) == *old(op),
{
}

/// The listeners for scan updates are told that a scan is running when it has begun, and that none is
/// when it has ended.
pub proof fn law_scan_updates_tell_what_is_running<P: Platform>(
    task: ScanTask<P>,
    status: Option<bool>,
)
    requires
        call_ensures(ScanTask::<P>::announcement, (&task,), status),
    ensures
        status == Some(true) <==> task is Announcing,
        status == Some(false) <==> task is Closing,
{
}

/// A scan with a valid filter that gets good answers is started with exactly what was asked: its task
/// becomes the handler's, it is handed the request, it may look for iBeacons as asked, and the result
/// is what the task told. Whatever happens to the handler between two answers does not matter.
pub proof fn law_scan_is_started_as_asked<P: Platform>(
    h: Seq<Handler<P>>,
    request: DiscoverRequest,
    ready: Result<(), Error>,
    task: P::Task,
    started: Result<(), Error>,
    op1: DiscoverOp,
    op2: DiscoverOp,
    op3: DiscoverOp,
    op4: DiscoverOp,
    op5: DiscoverOp,
)
    requires
        h.len() == 10,
        is_valid_filter(request.filter),
        discover_goes(h[0], DiscoverOp::Requested(request), DiscoverEvent::Proceed, h[1], op1),
        discover_goes(h[2], op1, DiscoverEvent::ScanStopped, h[3], op2),
        discover_goes(h[4], op2, DiscoverEvent::AdapterReady(ready), h[5], op3),
        ready is Ok ==> discover_goes(
            h[6],
            DiscoverOp::Spawning(None),
            DiscoverEvent::Spawned(task),
            h[7],
            op4,
        ),
        ready is Ok ==> discover_goes(h[8], op4, DiscoverEvent::Started(started), h[9], op5),
    ensures
        h[1] == h[0],
        h[3].allow_ibeacons == request.allow_ibeacons,
        h[3].known_devices == h[2].known_devices,
        h[3].connection == h[2].connection,
        h[5] == h[4],
        ready matches Err(error) ==> op3 == DiscoverOp::Finished(Err(error)),
        ready is Ok ==> {
            &&& op3 == DiscoverOp::Spawning(Some(request))
            &&& h[7].scan_task == Some(task)
            &&& h[7].known_devices == h[6].known_devices
            &&& h[9] == h[8]
            &&& op5 == DiscoverOp::Finished(started)
        },
{
}

} // verus!
