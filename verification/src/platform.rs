//! The outside values that the library carries and never looks into.
use vstd::prelude::*;

verus! {

/// The types of the outside values that a handler stores and hands on.
pub trait Platform {
    /// An opened Bluetooth adapter.
    type Adapter;

    /// A remote device.
    type Device;

    /// A characteristic of a remote device.
    type Charac;

    /// A running background task.
    type Task;

    /// The sending end of a channel for status updates.
    type Sender;

    /// A disconnect callback that runs to its end when it is called.
    type SyncCallback;

    /// A disconnect callback that returns something to wait for.
    type AsyncCallback;
}

} // verus!
