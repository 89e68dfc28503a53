//! The routing step of the dispatch loop.

use crate::correlator::{offered, takes, Correlator};
use crate::errors::RTDError;
use crate::frame::Frame;
use vstd::prelude::*;

verus! {

/// What the dispatch loop does between two polls.
#[derive(Clone, Copy, Debug, PartialEq, Eq, Structural)]
pub enum LoopAction {
    /// Poll the native component once more.
    Poll,
    /// Leave the loop: no further poll is made.
    Halt,
}

/// Where one poll of the native component ended.
#[derive(Debug, PartialEq, Eq)]
pub enum Routed {
    /// Nothing arrived within the timeout.
    Idle,
    /// The frame fulfilled a pending call.
    Delivered,
    /// The frame reports a handshake phase: it goes to the queue of the
    /// authorization state machine.
    Authorization(Frame),
    /// Any other frame: it goes to the update sink.
    Update(Frame),
    /// The received text holds no frame. The loop cannot go on.
    Fatal(RTDError),
}

/// Where a frame goes: to the pending call that the registry finds for it,
/// else to the handshake where it reports a phase, else to the update sink.
pub open spec fn routed(slots: Map<Seq<char>, Option<Frame>>, frame: Frame) -> Routed {
    if takes(slots, frame) {
        Routed::Delivered
    } else if frame@.authorization_state is Some {
        Routed::Authorization(frame)
    } else {
        Routed::Update(frame)
    }
}

/// Routes one decoded frame. The correlator is asked first; a frame that it
/// does not take is handed back for the handshake or for the update sink, and
/// is never dropped.
pub fn route(correlator: &mut Correlator, frame: Frame) -> (to: Routed)
    ensures
        final(correlator).closed() == old(correlator).closed(),
        final(correlator)@ == offered(old(correlator)@, frame),
        to == routed(old(correlator)@, frame),
{
    match correlator.notify(frame) {
        None => Routed::Delivered,
        Some(frame) => {
            if frame.authorization_state().is_some() {
                Routed::Authorization(frame)
            } else {
                Routed::Update(frame)
            }
        },
    }
}

} // verus!
