//! The message that carries an edge notification from the context that saw the
//! edge to the context that processes it.

use vstd::prelude::*;

use crate::PinId;

verus! {

/// One edge notification. It names the pin and nothing else: the levels are
/// read again when the notification is processed, since they may have changed
/// by then.
#[derive(Debug, Eq, PartialEq, Copy, Clone, Structural)]
pub struct EventLoopMessage(pub PinId);

impl EventLoopMessage {
    /// The notification of an edge on the pin `data`.
    pub fn new(data: PinId) -> (msg: Self)
        ensures
            msg.0 == data,
    {
        Self(data)
    }
}

} // verus!
