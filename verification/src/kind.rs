//! The kinds of [`Container`](crate::container::Container): which thread
//! bounds its values must meet.

use vstd::prelude::*;

verus! {

/// A kind of container.
pub trait Kind {
}

/// Values must be `Send`.
pub struct Send;

impl Kind for Send {
}

/// Values must be `Send + Sync`.
pub struct SendSync;

impl Kind for SendSync {
}

/// Values need be neither `Send` nor `Sync`.
pub struct Neither;

impl Kind for Neither {
}

} // verus!
