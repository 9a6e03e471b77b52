//! Callbacks that a user of the library registers.
//!
//! A callback either runs to its end when it is called, or returns something that the caller
//! has to wait for. The types are generic in the two kinds of callback: the library stores them
//! and hands them on.
use vstd::prelude::*;
use vstd::std_specs::convert::FromSpecImpl;

verus! {

/// What to call when the connected device disconnects.
pub enum OnDisconnectHandler<S, A> {
    /// Nothing is called.
    NoHandler,
    /// A callback that runs to its end when it is called.
    Sync(S),
    /// A callback that returns something to wait for.
    Async(A),
}

impl<S, A> OnDisconnectHandler<S, A> {
    /// Calls the callback, if there is one. What an asynchronous one returns is still to be
    /// waited for.
    pub fn run<F>(self) -> (pending: Option<F>) where S: FnOnce(), A: FnOnce() -> F
        requires
            self matches OnDisconnectHandler::Sync(f) ==> call_requires(f, ()),
            self matches OnDisconnectHandler::Async(f) ==> call_requires(f, ()),
        ensures
            match self {
                OnDisconnectHandler::NoHandler => pending is None,
                OnDisconnectHandler::Sync(f) => pending is None && call_ensures(f, (), ()),
                OnDisconnectHandler::Async(f) => pending matches Some(p) && call_ensures(f, (), p),
            },
    {
        match self {
            OnDisconnectHandler::NoHandler => None,
            OnDisconnectHandler::Sync(f) => {
                f();
                None
            },
            OnDisconnectHandler::Async(f) => Some(f()),
        }
    }

    /// Takes the callback out and leaves nothing in its place.
    #[must_use]
    pub fn take(&mut self) -> (taken: Self)
        ensures
            taken == *old(self),
            *final(self) == OnDisconnectHandler::<S, A>::NoHandler,
    {
        let mut taken = OnDisconnectHandler::NoHandler;
        core::mem::swap(self, &mut taken);
        taken
    }

    /// A handler that calls `func` and waits for what it returns.
    pub fn from_async(func: A) -> (handler: Self)
        ensures
            handler == OnDisconnectHandler::<S, A>::Async(func),
    {
        OnDisconnectHandler::Async(func)
    }

    /// A handler that calls `func`.
    pub fn from_sync(func: S) -> (handler: Self)
        ensures
            handler == OnDisconnectHandler::<S, A>::Sync(func),
    {
        OnDisconnectHandler::Sync(func)
    }
}

/// What to call with each notification of a subscribed characteristic.
pub enum SubscriptionHandler<S, A> {
    /// A callback that runs to its end when it is called.
    Sync(S),
    /// A callback that returns something to wait for.
    Async(A),
}

impl<S, A> SubscriptionHandler<S, A> {
    /// A handler that calls `func` and waits for what it returns.
    pub fn from_async(func: A) -> (handler: Self)
        ensures
            handler == SubscriptionHandler::<S, A>::Async(func),
    {
        SubscriptionHandler::Async(func)
    }

    /// Calls the callback with `data`. What an asynchronous one returns is still to be waited
    /// for.
    pub fn run<F>(&self, data: Vec<u8>) -> (pending: Option<F>) where
        S: Fn(Vec<u8>),
        A: Fn(Vec<u8>) -> F,

        requires
            *self matches SubscriptionHandler::Sync(f) ==> call_requires(f, (data,)),
            *self matches SubscriptionHandler::Async(f) ==> call_requires(f, (data,)),
        ensures
            match *self {
                SubscriptionHandler::Sync(f) => pending is None && call_ensures(f, (data,), ()),
                SubscriptionHandler::Async(f) => pending matches Some(p) && call_ensures(
                    f,
                    (data,),
                    p,
                ),
            },
    {
        match self {
            SubscriptionHandler::Sync(f) => {
                f(data);
                None
            },
            SubscriptionHandler::Async(f) => Some(f(data)),
        }
    }
}

impl<S, A> FromSpecImpl<S> for SubscriptionHandler<S, A> {
    open spec fn obeys_from_spec() -> bool {
        true
    }

    open spec fn from_spec(func: S) -> Self {
        SubscriptionHandler::Sync(func)
    }
}

impl<S, A> From<S> for SubscriptionHandler<S, A> {
    /// A handler that calls `func`.
    fn from(func: S) -> (handler: Self) {
        SubscriptionHandler::Sync(func)
    }
}

/// The registered disconnect callback is the one that is called: a synchronous one has run, what an
/// asynchronous one returned is handed out to be waited for, and without one nothing is.
pub proof fn law_registered_callback_is_called<S: FnOnce(), F, A: FnOnce() -> F>(
    handler: OnDisconnectHandler<S, A>,
    pending: Option<F>,
)
    requires
        call_ensures(OnDisconnectHandler::<S, A>::run::<F>, (handler,), pending),
    ensures
        handler matches OnDisconnectHandler::Sync(f) ==> call_ensures(f, (), ()) && pending is None,
        handler matches OnDisconnectHandler::Async(f) ==> (pending matches Some(p) && call_ensures(
            f,
            (),
            p,
        )),
        handler is NoHandler ==> pending is None,
{
}

/// A callback that is registered is the one that is taken out again, and then there is none.
pub proof fn law_callback_is_taken_as_registered<S, A>(
    sync: S,
    asynchronous: A,
    from_sync: OnDisconnectHandler<S, A>,
    from_async: OnDisconnectHandler<S, A>,
    held: &mut OnDisconnectHandler<S, A>,
    taken: OnDisconnectHandler<S, A>,
)
    requires
        call_ensures(OnDisconnectHandler::<S, A>::from_sync, (sync,), from_sync),
        call_ensures(OnDisconnectHandler::<S, A>::from_async, (asynchronous,), from_async),
        call_ensures(OnDisconnectHandler::<S, A>::take, (held,), taken),
    ensures
        from_sync == OnDisconnectHandler::<S, A>::Sync(sync),
        from_async == OnDisconnectHandler::<S, A>::Async(asynchronous),
        taken == *old(held),
        *final(held) is NoHandler,
{
}

/// The callback of a subscription is called with exactly the data of the notification.
pub proof fn law_callback_gets_the_data<S: Fn(Vec<u8>), F, A: Fn(Vec<u8>) -> F>(
    handler: SubscriptionHandler<S, A>,
    data: Vec<u8>,
    pending: Option<F>,
)
    requires
        call_ensures(SubscriptionHandler::<S, A>::run::<F>, (&handler, data), pending),
    ensures
        handler matches SubscriptionHandler::Sync(f) ==> call_ensures(f, (data,), ()) && pending
            is None,
        handler matches SubscriptionHandler::Async(f) ==> (pending matches Some(p) && call_ensures(
            f,
            (data,),
            p,
        )),
{
}

/// The callback of a subscription is the one that was given for it.
pub proof fn law_subscription_callback_is_the_given_one<S, A>(
    asynchronous: A,
    handler: SubscriptionHandler<S, A>,
)
    requires
        call_ensures(SubscriptionHandler::<S, A>::from_async, (asynchronous,), handler),
    ensures
        handler == SubscriptionHandler::<S, A>::Async(asynchronous),
{
}

} // verus!
