//! An established session and its two halves.

use crate::codec::WebSocketIO;
use crate::receiver::ReceiverLoop;
use crate::sender::{SenderLoop, SenderPhase};
use std::marker::PhantomData;
use vstd::prelude::*;

verus! {

/// An established duplex connection, not yet split.
///
/// A session comes out of a successful connection attempt and out of nothing
/// else, and it is used up when it is split. So each session has exactly one
/// sender loop and one receiver loop, and no loop exists without a session.
pub struct Session<T> {
    codec: PhantomData<T>,
}

impl<T: WebSocketIO> Session<T> {
    pub(crate) fn open() -> (session: Session<T>) {
        Session { codec: PhantomData }
    }

    /// Splits the session into the loop that owns the write half and the loop
    /// that owns the read half, both at their start.
    pub fn split(self) -> (halves: (SenderLoop<T>, ReceiverLoop<T>))
        ensures
            halves.0.phase() == SenderPhase::Draining,
            !halves.1.ended(),
    {
        (SenderLoop::new(), ReceiverLoop::new())
    }
}

} // verus!
