//! The errors of the library.
use vstd::prelude::*;

verus! {

/// What can go wrong in an operation of the library.
#[derive(Debug, PartialEq, Eq)]
pub enum Error {
    /// The Bluetooth backend reported an error; the text is the backend's own.
    Btleplug(String),
    /// No device with this address is known.
    UnknownPeripheral(String),
    /// The connected device does not offer the characteristic with this UUID.
    CharacNotAvailable(String),
    /// The operation needs a connected device and there is none.
    NoDeviceConnected,
    /// The device is already connected.
    AlreadyConnected,
    /// The backend connected the device but no connection was established.
    ConnectionFailed,
    /// The backend disconnected the device but the connection is still up.
    DisconnectFailed,
    /// The data and the mask of a masked filter differ in length.
    InvalidFilterMask,
    /// The named command did not finish in time.
    Timeout(String),
    /// The handler has not been set up yet.
    HandlerNotInitialized,
}

/// [`Error`] with each text as a sequence of characters.
pub enum ErrorView {
    Btleplug(Seq<char>),
    UnknownPeripheral(Seq<char>),
    CharacNotAvailable(Seq<char>),
    NoDeviceConnected,
    AlreadyConnected,
    ConnectionFailed,
    DisconnectFailed,
    InvalidFilterMask,
    Timeout(Seq<char>),
    HandlerNotInitialized,
}

impl View for Error {
    type V = ErrorView;

    open spec fn view(&self) -> ErrorView {
        match *self {
            Error::Btleplug(s) => ErrorView::Btleplug(s@),
            Error::UnknownPeripheral(s) => ErrorView::UnknownPeripheral(s@),
            Error::CharacNotAvailable(s) => ErrorView::CharacNotAvailable(s@),
            Error::NoDeviceConnected => ErrorView::NoDeviceConnected,
            Error::AlreadyConnected => ErrorView::AlreadyConnected,
            Error::ConnectionFailed => ErrorView::ConnectionFailed,
            Error::DisconnectFailed => ErrorView::DisconnectFailed,
            Error::InvalidFilterMask => ErrorView::InvalidFilterMask,
            Error::Timeout(s) => ErrorView::Timeout(s@),
            Error::HandlerNotInitialized => ErrorView::HandlerNotInitialized,
        }
    }
}

/// `result` is an error, and it is `error`.
pub open spec fn fails_with<T>(result: Result<T, Error>, error: ErrorView) -> bool {
    result matches Err(e) && e@ == error
}

/// An error is what it says: a result that fails with a kind of error holds an error of that kind,
/// with the same text.
pub proof fn law_errors_are_what_they_say<T>(result: Result<T, Error>, text: Seq<char>)
    ensures
        fails_with(result, ErrorView::Btleplug(text)) <==> (result matches Err(Error::Btleplug(t))
            && t@ == text),
        fails_with(result, ErrorView::UnknownPeripheral(text)) <==> (result matches Err(
            Error::UnknownPeripheral(t),
        ) && t@ == text),
        fails_with(result, ErrorView::CharacNotAvailable(text)) <==> (result matches Err(
            Error::CharacNotAvailable(t),
        ) && t@ == text),
        fails_with(result, ErrorView::Timeout(text)) <==> (result matches Err(Error::Timeout(t))
            && t@ == text),
        fails_with(result, ErrorView::NoDeviceConnected) <==> result == Err::<T, Error>(
            Error::NoDeviceConnected,
        ),
        fails_with(result, ErrorView::AlreadyConnected) <==> result == Err::<T, Error>(
            Error::AlreadyConnected,
        ),
        fails_with(result, ErrorView::ConnectionFailed) <==> result == Err::<T, Error>(
            Error::ConnectionFailed,
        ),
        fails_with(result, ErrorView::DisconnectFailed) <==> result == Err::<T, Error>(
            Error::DisconnectFailed,
        ),
        fails_with(result, ErrorView::InvalidFilterMask) <==> result == Err::<T, Error>(
            Error::InvalidFilterMask,
        ),
        fails_with(result, ErrorView::HandlerNotInitialized) <==> result == Err::<T, Error>(
            Error::HandlerNotInitialized,
        ),
{
}

} // verus!
