//! Verified core of a Bluetooth Low Energy client.
//!
//! The crate holds what a BLE client decides: which advertisements pass a scan
//! filter, which characteristic a request addresses, how often a connection is
//! attempted, what a disconnect event clears. It performs no radio work and no
//! waiting. Each operation that needs the radio is a state machine: its state
//! names the next action, the caller performs the action and hands the answer
//! back as an event, and the machine moves on.
use vstd::prelude::*;

use crate::error::{ErrorView, fails_with};

pub mod connect;
pub mod connection;
pub mod disconnect;
pub mod error;
pub mod event_handlers;
pub mod filter;
pub mod handler;
pub mod history;
pub mod ids;
pub mod models;
pub mod platform;
pub mod scan;
pub mod services;
pub mod subscribe;
pub mod text;
pub mod timeout;

pub use crate::error::Error;
pub use crate::event_handlers::{OnDisconnectHandler, SubscriptionHandler};
pub use crate::handler::Handler;

verus! {

/// `slot` goes from `before` to `after` when a handler is to be put there, and `result` is what comes
/// of it. A handler that is there already stays.
pub open spec fn init_goes<H>(
    before: Option<H>,
    handler: Result<H, Error>,
    after: Option<H>,
    result: Result<(), Error>,
) -> bool {
    match handler {
        Ok(h) => {
            &&& after == if before is Some {
                before
            } else {
                Some(h)
            }
            &&& result == Ok::<(), Error>(())
        },
        Err(error) => after == before && result == Err::<(), Error>(error),
    }
}

/// `result` is what a request for the handler in `slot` gets.
pub open spec fn finds_handler<H>(slot: Option<H>, result: Result<H, Error>) -> bool {
    match slot {
        Some(handler) => result == Ok::<H, Error>(handler),
        None => fails_with(result, ErrorView::HandlerNotInitialized),
    }
}

/// Puts a handler into `slot`, unless it could not be set up or one is there already.
pub fn try_init<H>(slot: &mut Option<H>, handler: Result<H, Error>) -> (result: Result<(), Error>)
    ensures
        init_goes(*old(slot), handler, *final(slot), result),
{
    match handler {
        Ok(handler) => {
            if slot.is_none() {
                *slot = Some(handler);
            }
            Ok(())
        },
        Err(error) => Err(error),
    }
}

/// The handler in `slot`, if one has been put there.
pub fn get_handler<H>(slot: Option<H>) -> (result: Result<H, Error>)
    ensures
        finds_handler(slot, result),
{
    match slot {
        Some(handler) => Ok(handler),
        None => Err(Error::HandlerNotInitialized),
    }
}

/// `slots` are the states of a slot that is empty at first, before and after each of the attempts
/// to put one of `handlers` there, and `results` are what came of them.
pub open spec fn is_init_run<H>(
    slots: Seq<Option<H>>,
    handlers: Seq<Result<H, Error>>,
    results: Seq<Result<(), Error>>,
) -> bool {
    &&& slots.len() == handlers.len() + 1
    &&& results.len() == handlers.len()
    &&& slots[0] is None
    &&& forall|i: int|
        #![trigger results[i]]
        0 <= i < handlers.len() ==> init_goes(slots[i], handlers[i], slots[i + 1], results[i])
}

/// The handler is missing exactly as long as no initialization has succeeded.
pub proof fn law_handler_is_there_once_initialized<H>(
    slots: Seq<Option<H>>,
    handlers: Seq<Result<H, Error>>,
    results: Seq<Result<(), Error>>,
    n: int,
    found: Result<H, Error>,
)
    requires
        is_init_run(slots, handlers, results),
        0 <= n < slots.len(),
        finds_handler(slots[n], found),
    ensures
        found is Ok <==> exists|i: int| 0 <= i < n && #[trigger] results[i] is Ok,
        found is Err ==> fails_with(found, ErrorView::HandlerNotInitialized),
    decreases n,
{
    if n > 0 {
        assert(init_goes(slots[n - 1], handlers[n - 1], slots[n], results[n - 1]));
        let earlier: Result<H, Error> = match slots[n - 1] {
            Some(h) => Ok(h),
            None => Err(Error::HandlerNotInitialized),
        };
        law_handler_is_there_once_initialized(slots, handlers, results, n - 1, earlier);
        if results[n - 1] is Ok {
            assert(slots[n] is Some);
        }
    }
}

/// Once a handler is there it is never replaced: every later request gets the same one.
pub proof fn law_handler_is_never_replaced<H>(
    slots: Seq<Option<H>>,
    handlers: Seq<Result<H, Error>>,
    results: Seq<Result<(), Error>>,
    n: int,
    later: int,
    found: Result<H, Error>,
    found_later: Result<H, Error>,
)
    requires
        is_init_run(slots, handlers, results),
        0 <= n <= later < slots.len(),
        finds_handler(slots[n], found),
        found is Ok,
        finds_handler(slots[later], found_later),
    ensures
        found_later == found,
    decreases later - n,
{
    if n < later {
        assert(init_goes(slots[later - 1], handlers[later - 1], slots[later], results[later - 1]));
        let before: Result<H, Error> = match slots[later - 1] {
            Some(h) => Ok(h),
            None => Err(Error::HandlerNotInitialized),
        };
        law_handler_is_never_replaced(slots, handlers, results, n, later - 1, found, before);
    }
}

/// A handler is put into a slot and found there as it is said to be.
pub proof fn law_slot_is_used_as_said<H>(
    slot: &mut Option<H>,
    handler: Result<H, Error>,
    result: Result<(), Error>,
    read: Option<H>,
    found: Result<H, Error>,
)
    requires
        call_ensures(try_init::<H>, (slot, handler), result),
        call_ensures(get_handler::<H>, (read,), found),
    ensures
        init_goes(*old(slot), handler, *final(slot), result),
        finds_handler(read, found),
        *old(slot) is Some ==> *final(slot) == *old(slot),
        *old(slot) is None && handler is Ok ==> *final(slot) == Some(handler->Ok_0),
        handler is Ok <==> result is Ok,
        read matches Some(h) ==> found == Ok::<H, Error>(h),
        read is None ==> found matches Err(Error::HandlerNotInitialized),
{
    if let Err(error) = found {
        assert(error@ == ErrorView::HandlerNotInitialized);
    }
}

/// Checks if the app has the necessary permissions to use BLE. A desktop system has no such
/// permissions to grant, so nothing is missing and the user is not asked.
pub fn check_permissions(ask_if_denied: bool) -> (granted: Result<bool, Error>)
    ensures
        granted == Ok::<bool, Error>(true),
{
    let _ = ask_if_denied;
    Ok(true)
}

} // verus!
