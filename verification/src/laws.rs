//! What holds of the client whatever arrives, stated over the models that
//! the contracts of the other modules speak of.

use crate::authorization::AuthorizationState;
use crate::client::ClientView;
use crate::correlator::{delivered_only, none_waiting, offered, takes};
use crate::dispatch::{routed, LoopAction, Routed};
use crate::errors::RTDErrorView;
use crate::frame::Frame;
use crate::handshake::{already_initialized, AuthAction, ClientStateView, HandshakeView};
use vstd::prelude::*;

verus! {

/// A frame is delivered to at most one slot, and a slot is filled at most
/// once. Offering a frame registers and removes nothing; it leaves every slot
/// but the one under the frame's own token as it was; a slot that holds a
/// response keeps that response; and once a frame has been taken, no later
/// frame with the same token is.
pub proof fn notify_delivers_once(
    slots: Map<Seq<char>, Option<Frame>>,
    frame: Frame,
    later: Frame,
    token: Seq<char>,
)
    ensures
        offered(slots, frame).dom() == slots.dom(),
        frame@.extra != Some(token) ==> offered(slots, frame)[token] == slots[token],
        slots.contains_key(token) && slots[token] is Some ==> offered(slots, frame)[token]
            == slots[token],
        takes(slots, frame) ==> offered(slots, frame)[frame@.extra->0] == Some(frame),
        takes(slots, frame) && later@.extra == frame@.extra ==> !takes(
            offered(slots, frame),
            later,
        ) && offered(offered(slots, frame), later) == offered(slots, frame),
{
    assert(offered(slots, frame).dom() =~= slots.dom());
}

/// A frame without a correlation token is never delivered to a slot: the
/// registry stays as it was, and the frame goes to the handshake where it
/// reports a phase, else to the update sink.
pub proof fn frame_without_token_passes(slots: Map<Seq<char>, Option<Frame>>, frame: Frame)
    requires
        frame@.extra is None,
    ensures
        !takes(slots, frame),
        offered(slots, frame) == slots,
        frame@.authorization_state is Some ==> routed(slots, frame) == Routed::Authorization(
            frame,
        ),
        frame@.authorization_state is None ==> routed(slots, frame) == Routed::Update(frame),
{
}

/// After the registration under a token is removed, a frame that carries the
/// token is not taken by the registry, which stays as it is: the frame is
/// handed on, unchanged, to the update sink. (A frame that reports a
/// handshake phase goes to the handshake instead, as every unmatched frame of
/// that kind does.)
pub proof fn response_after_unsubscribe_is_an_update(
    client: ClientView,
    token: Seq<char>,
    frame: Frame,
)
    requires
        frame@.extra == Some(token),
        frame@.authorization_state is None,
    ensures
        routed(client.cancelled(token).slots, frame) == Routed::Update(frame),
        client.cancelled(token).received(frame) == client.cancelled(token),
{
}

/// The client is told once that it has opened: the signal comes only to an
/// uninitialized client, which is open afterwards, and no phase makes a
/// client uninitialized again.
pub proof fn ready_is_signalled_once(state: ClientStateView, phase: AuthorizationState)
    ensures
        state.action(phase) == AuthAction::SignalReady ==> state is Uninitialized && phase
            == AuthorizationState::Ready && state.after(phase) is Opened,
        state.after(phase) is Uninitialized ==> state is Uninitialized,
        state.is_terminal() ==> state.action(phase) == AuthAction::Ignore,
{
}

/// The lifecycle only moves forward: from uninitialized to open, from there
/// to closed or failed. Nothing that happens to a client takes it back, and
/// a closed or failed client stays exactly as it is.
pub proof fn lifecycle_moves_forward(
    state: ClientStateView,
    phase: AuthorizationState,
    reason: Seq<char>,
)
    ensures
        state.rank() <= state.after(phase).rank(),
        state.rank() <= state.failed(reason).rank(),
        state.rank() <= state.ended().rank(),
        state.is_terminal() ==> state.after(phase) == state && state.failed(reason) == state
            && state.ended() == state,
        state.is_terminal() <==> state.rank() == 2,
{
}

/// `Ready` reported twice is an error. Unless the client is closed already,
/// two reports of `Ready` leave it failed, whatever is reported between and
/// after them, and the handshake's outcome, if not read before, reads as
/// that error.
pub proof fn second_ready_fails(
    handshake: HandshakeView,
    between: AuthorizationState,
    after: AuthorizationState,
)
    requires
        !(handshake.state is Closed),
        between != AuthorizationState::Closed,
    ensures
        handshake.after(AuthorizationState::Ready).after(between).after(
            AuthorizationState::Ready,
        ).state is Error,
        handshake.after(AuthorizationState::Ready).after(between).after(
            AuthorizationState::Ready,
        ).after(after).state is Error,
        !handshake.resolved ==> (handshake.after(AuthorizationState::Ready).after(between).after(
            AuthorizationState::Ready,
        ).outcome() matches Ok(Some(state)) && state is Error),
{
}

/// The outcome of the handshake is read once. After a read that gave a
/// state, every later read is refused, whatever happened in between.
pub proof fn outcome_is_read_once(
    handshake: HandshakeView,
    phase: AuthorizationState,
    reason: Seq<char>,
)
    requires
        handshake.outcome() matches Ok(Some(_)),
    ensures
        handshake.read().outcome() == Err::<Option<ClientStateView>, RTDErrorView>(
            RTDErrorView::BadRequest(already_initialized()),
        ),
        handshake.read().after(phase).outcome() is Err,
        handshake.read().failed(reason).outcome() is Err,
        handshake.read().ended().outcome() is Err,
        handshake.read().read().outcome() is Err,
{
}

/// Stopping halts the dispatch loop and leaves no call waiting: a call that
/// had its response keeps it, every other call reads as cancelled.
pub proof fn stop_cancels_waiting_calls(client: ClientView, token: Seq<char>, expects: Seq<char>)
    ensures
        client.halted().stopped,
        client.halted().inv(),
        none_waiting(client.halted().slots),
        client.halted().next_action() == LoopAction::Halt,
        client.halted().resolution(token, expects) is Some,
        client.slots.contains_key(token) && client.slots[token] is Some
            ==> client.halted().resolution(token, expects) == client.resolution(token, expects),
        !(client.slots.contains_key(token) && client.slots[token] is Some)
            ==> client.halted().resolution(token, expects) == Some(
            Err::<Frame, RTDErrorView>(RTDErrorView::Cancelled),
        ),
{
}

/// A stopped client stays stopped. Whatever happens to it, the dispatch loop
/// is told to halt and no call waits: a frame that arrives is taken by no
/// slot, and a new call is cancelled at once.
pub proof fn stopped_client_stays_stopped(
    client: ClientView,
    frame: Frame,
    token: Seq<char>,
    handshake: HandshakeView,
)
    requires
        client.inv(),
        client.stopped,
    ensures
        client.next_action() == LoopAction::Halt,
        !takes(client.slots, frame),
        client.received(frame) == client,
        client.refusal(Some(token)) == Some(RTDErrorView::Cancelled),
        client.running().stopped && client.running().inv(),
        client.halted().stopped && client.halted().inv(),
        client.broken().stopped && client.broken().inv(),
        client.resolved(token).stopped && client.resolved(token).inv(),
        client.cancelled(token).stopped && client.cancelled(token).inv(),
        client.with_handshake(handshake).stopped && client.with_handshake(handshake).inv(),
{
    assert(delivered_only(client.slots) =~= client.slots);
}

/// Every client that can be reached is as [`ClientView::inv`] says: a new
/// client is, and each step of a client keeps it so.
pub proof fn client_invariant_is_kept(
    client: ClientView,
    frame: Frame,
    token: Seq<char>,
    handshake: HandshakeView,
)
    requires
        client.inv(),
    ensures
        ClientView::initial().inv(),
        client.running().inv(),
        client.received(frame).inv(),
        client.halted().inv(),
        client.broken().inv(),
        client.refusal(Some(token)) is None ==> client.called(token).inv(),
        client.resolved(token).inv(),
        client.cancelled(token).inv(),
        client.with_handshake(handshake).inv(),
{
    if client.stopped {
        assert forall|t: Seq<char>| offered(client.slots, frame).contains_key(t) implies (
        #[trigger] offered(client.slots, frame)[t]) is Some by {
            assert(client.slots.contains_key(t));
        }
    }
}

} // verus!
