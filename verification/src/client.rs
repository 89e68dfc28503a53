//! The client facade: calls, the dispatch loop's decisions, and the
//! lifecycle of one client identity.

use crate::authorization::AuthorizationState;
use crate::correlator::{delivered_only, none_waiting, offered, Correlator, SlotPoll};
use crate::dispatch::{route, routed, LoopAction, Routed};
use crate::errors::{RTDError, RTDErrorView};
use crate::frame::{decoded, Frame};
use crate::handshake::{AuthAction, ClientState, ClientStateView, Handshake, HandshakeView, TdlibParameters};
use vstd::prelude::*;

verus! {

/// Handle of the native transport. It carries no state of its own: the
/// native component keeps everything behind the client identity.
#[derive(Clone, Copy, Debug)]
pub struct RawApi;

impl RawApi {
    /// A transport handle.
    pub fn new() -> (api: Self)
        ensures
            api == RawApi,
    {
        RawApi
    }
}

impl Default for RawApi {
    fn default() -> (api: Self)
        ensures
            api == RawApi,
    {
        RawApi
    }
}

/// A call that has been registered and awaits its response.
#[derive(Debug, PartialEq, Eq)]
pub struct PendingCall {
    token: String,
    expects: String,
}

impl PendingCall {
    /// The correlation token of the call.
    pub closed spec fn token_view(&self) -> Seq<char> {
        self.token@
    }

    /// The discriminant that the call expects of its response.
    pub closed spec fn expects_view(&self) -> Seq<char> {
        self.expects@
    }

    /// The correlation token of the call.
    pub fn token(&self) -> (token: &str)
        ensures
            token@ == self.token_view(),
    {
        self.token.as_str()
    }

    /// The discriminant that the call expects of its response.
    pub fn expects(&self) -> (name: &str)
        ensures
            name@ == self.expects_view(),
    {
        self.expects.as_str()
    }
}

/// One client of the native component.
#[derive(Debug)]
pub struct Client {
    client_id: i32,
    tdlib_parameters: TdlibParameters,
    correlator: Correlator,
    handshake: Handshake,
    started: bool,
}

/// What a [`Client`] is at one moment.
pub struct ClientView {
    /// Whether the dispatch loop has been started.
    pub started: bool,
    /// Whether the client has been stopped.
    pub stopped: bool,
    /// The registered calls, each with its response once it has arrived.
    pub slots: Map<Seq<char>, Option<Frame>>,
    /// The handshake.
    pub handshake: HandshakeView,
}

/// The reason of the error that refuses a call without a correlation token.
pub open spec fn no_token() -> Seq<char> {
    "request carries no correlation token"@
}

/// The reason of the error that refuses to start a second dispatch loop.
pub open spec fn already_started() -> Seq<char> {
    "client already started"@
}

/// The reason of the error that refuses to build a client without
/// parameters.
pub open spec fn no_parameters() -> Seq<char> {
    "tdlib_parameters not set"@
}

impl ClientView {
    /// A new client: running, without calls, uninitialized.
    pub open spec fn initial() -> ClientView {
        ClientView {
            started: false,
            stopped: false,
            slots: Map::empty(),
            handshake: HandshakeView::initial(),
        }
    }

    /// What holds of every client: once stopped, none of its calls waits.
    pub open spec fn inv(self) -> bool {
        self.stopped ==> none_waiting(self.slots)
    }

    /// The client after its dispatch loop is started.
    pub open spec fn running(self) -> ClientView {
        ClientView { started: true, ..self }
    }

    /// What the dispatch loop does next: it polls until the client is stopped.
    pub open spec fn next_action(self) -> LoopAction {
        if self.stopped {
            LoopAction::Halt
        } else {
            LoopAction::Poll
        }
    }

    /// The client after it is stopped: the calls that still wait are
    /// cancelled.
    pub open spec fn halted(self) -> ClientView {
        ClientView { stopped: true, slots: delivered_only(self.slots), ..self }
    }

    /// The client after a frame has been routed.
    pub open spec fn received(self, frame: Frame) -> ClientView {
        ClientView { slots: offered(self.slots, frame), ..self }
    }

    /// The client after a text has arrived that holds no frame: it is
    /// stopped, and has failed with a protocol error.
    pub open spec fn broken(self) -> ClientView {
        ClientView {
            stopped: true,
            slots: delivered_only(self.slots),
            handshake: self.handshake.failed(RTDErrorView::ProtocolError.message()),
            ..self
        }
    }

    /// The error that refuses a call, if one does: a request without a token
    /// is a bad request, a stopped client cancels the call at once, and a
    /// token can be registered only once.
    pub open spec fn refusal(self, extra: Option<Seq<char>>) -> Option<RTDErrorView> {
        match extra {
            None => Some(RTDErrorView::BadRequest(no_token())),
            Some(token) => Correlator::subscribing(self.stopped, self.slots, token),
        }
    }

    /// The client after a call is registered under a token.
    pub open spec fn called(self, token: Seq<char>) -> ClientView {
        ClientView { slots: self.slots.insert(token, None), ..self }
    }

    /// How the call under a token that expects a discriminant stands: `None`
    /// while it waits, else its end. A call without registration was
    /// cancelled; a response ends the call as
    /// [`crate::frame::FrameView::response`] says.
    pub open spec fn resolution(self, token: Seq<char>, expects: Seq<char>) -> Option<
        Result<Frame, RTDErrorView>,
    > {
        if !self.slots.contains_key(token) {
            Some(Err(RTDErrorView::Cancelled))
        } else {
            match self.slots[token] {
                None => None,
                Some(frame) => Some(
                    match frame@.response(expects) {
                        Ok(_) => Ok(frame),
                        Err(error) => Err(error),
                    },
                ),
            }
        }
    }

    /// The client after the call under a token is read: a call that has
    /// ended leaves the registry.
    pub open spec fn resolved(self, token: Seq<char>) -> ClientView {
        if self.slots.contains_key(token) && self.slots[token] is None {
            self
        } else {
            self.cancelled(token)
        }
    }

    /// The client after the registration under a token is removed.
    pub open spec fn cancelled(self, token: Seq<char>) -> ClientView {
        ClientView { slots: self.slots.remove(token), ..self }
    }

    /// The client with another handshake.
    pub open spec fn with_handshake(self, handshake: HandshakeView) -> ClientView {
        ClientView { handshake, ..self }
    }
}

impl View for Client {
    type V = ClientView;

    closed spec fn view(&self) -> ClientView {
        ClientView {
            started: self.started,
            stopped: self.correlator.closed(),
            slots: self.correlator@,
            handshake: self.handshake@,
        }
    }
}

impl Client {
    /// The identity that the transport assigned to the client.
    pub closed spec fn id(&self) -> i32 {
        self.client_id
    }

    /// The settings that the client was made with.
    pub closed spec fn parameters(&self) -> TdlibParameters {
        self.tdlib_parameters
    }

    /// Starts to build a client.
    pub fn builder() -> (builder: ClientBuilder)
        ensures
            builder.parameters() is None,
    {
        ClientBuilder::default()
    }

    /// A new client with the identity that the transport assigned to it.
    pub fn new(client_id: i32, tdlib_parameters: TdlibParameters) -> (client: Self)
        ensures
            client@ == ClientView::initial(),
            client.id() == client_id,
            client.parameters() == tdlib_parameters,
    {
        Client {
            client_id,
            tdlib_parameters,
            correlator: Correlator::new(),
            handshake: Handshake::new(),
            started: false,
        }
    }

    /// The identity that the transport assigned to the client.
    pub fn client_id(&self) -> (id: i32)
        ensures
            id == self.id(),
    {
        self.client_id
    }

    /// The settings that the client was made with.
    pub fn tdlib_parameters(&self) -> (parameters: &TdlibParameters)
        ensures
            *parameters == self.parameters(),
    {
        &self.tdlib_parameters
    }

    /// The lifecycle state.
    pub fn state(&self) -> (state: &ClientState)
        ensures
            state@ == self@.handshake.state,
    {
        self.handshake.state()
    }

    /// Whether the client has been stopped. A stopped client keeps no
    /// waiting call.
    pub fn is_stopped(&self) -> (stopped: bool)
        ensures
            stopped == self@.stopped,
            self@.inv(),
    {
        self.correlator.is_closed()
    }

    /// Starts the dispatch loop: the caller becomes the one consumer of the
    /// native component's receive call. A second start is refused as a bad
    /// request, so that there is never a second consumer.
    pub fn start(&mut self) -> (done: Result<(), RTDError>)
        ensures
            final(self).id() == old(self).id(),
            final(self).parameters() == old(self).parameters(),
            final(self)@ == old(self)@.running(),
            match done {
                Ok(_) => !old(self)@.started,
                Err(error) => old(self)@.started && error@ == RTDErrorView::BadRequest(
                    already_started(),
                ),
            },
    {
        if self.started {
            Err(RTDError::BadRequest("client already started".to_owned()))
        } else {
            self.started = true;
            Ok(())
        }
    }

    /// What the dispatch loop does next. It is asked before every poll.
    pub fn next_action(&self) -> (action: LoopAction)
        ensures
            action == self@.next_action(),
    {
        if self.correlator.is_closed() {
            LoopAction::Halt
        } else {
            LoopAction::Poll
        }
    }

    /// Stops the client: the dispatch loop halts before its next poll, and
    /// every call that still waits is cancelled. The identity, the settings
    /// and the handshake stay as they are.
    pub fn stop(&mut self)
        ensures
            final(self)@ == old(self)@.halted(),
            final(self).id() == old(self).id(),
            final(self).parameters() == old(self).parameters(),
    {
        self.correlator.close();
    }

    /// Routes one decoded frame; see [`routed`].
    pub fn route(&mut self, frame: Frame) -> (to: Routed)
        ensures
            final(self)@ == old(self)@.received(frame),
            to == routed(old(self)@.slots, frame),
            final(self).id() == old(self).id(),
            final(self).parameters() == old(self).parameters(),
    {
        route(&mut self.correlator, frame)
    }

    /// Takes in what one poll of the native component returned. Nothing
    /// means that the loop polls again. A text that decodes to a frame is
    /// routed. Any other text is fatal: the client is stopped and fails with
    /// a protocol error.
    pub fn dispatch(&mut self, received: Option<&str>) -> (to: Routed)
        ensures
            final(self).id() == old(self).id(),
            final(self).parameters() == old(self).parameters(),
            match received {
                None => to == Routed::Idle && final(self)@ == old(self)@,
                Some(text) => match decoded(text@) {
                    None => (to matches Routed::Fatal(error) && error@
                        == RTDErrorView::ProtocolError) && final(self)@ == old(self)@.broken(),
                    Some(view) => exists|frame: Frame|
                        frame@ == view && to == #[trigger] routed(old(self)@.slots, frame)
                            && final(self)@ == old(self)@.received(frame),
                },
            },
    {
        let text = match received {
            Some(text) => text,
            None => {
                return Routed::Idle;
            },
        };
        match Frame::decode(text) {
            Ok(frame) => {
                let to = route(&mut self.correlator, frame);
                assert(to == routed(old(self)@.slots, frame));
                to
            },
            Err(error) => {
                self.correlator.close();
                let reason = error.message();
                self.handshake.fail(reason.as_str());
                Routed::Fatal(error)
            },
        }
    }

    /// Registers a call: the request's correlation token, and the
    /// discriminant that its response is to carry. The caller then sends the
    /// request and reads the outcome with [`Client::resolve`]. A refused call
    /// changes nothing; see [`ClientView::refusal`].
    pub fn call(&mut self, extra: Option<&str>, expects: &str) -> (made: Result<
        PendingCall,
        RTDError,
    >)
        ensures
            final(self).id() == old(self).id(),
            final(self).parameters() == old(self).parameters(),
            match made {
                Ok(call) => old(self)@.refusal(extra.deep_view()) is None && final(self)@ == old(
                    self,
                )@.called(call.token_view()) && Some(call.token_view()) == extra.deep_view()
                    && call.expects_view() == expects@,
                Err(error) => old(self)@.refusal(extra.deep_view()) == Some(error@) && final(self)@
                    == old(self)@,
            },
    {
        let token = match extra {
            Some(token) => token,
            None => {
                return Err(RTDError::BadRequest("request carries no correlation token".to_owned()));
            },
        };
        match self.correlator.subscribe(token) {
            Ok(_) => Ok(PendingCall { token: token.to_owned(), expects: expects.to_owned() }),
            Err(error) => Err(error),
        }
    }

    /// Reads how a call stands: `None` while it waits, else its end, once.
    /// A call that has ended is no longer registered. The call of a stopped
    /// client never waits.
    pub fn resolve(&mut self, call: &PendingCall) -> (outcome: Option<Result<Frame, RTDError>>)
        ensures
            final(self).id() == old(self).id(),
            final(self).parameters() == old(self).parameters(),
            final(self)@ == old(self)@.resolved(call.token_view()),
            old(self)@.stopped ==> outcome is Some,
            match outcome {
                None => old(self)@.resolution(call.token_view(), call.expects_view()) is None,
                Some(Ok(frame)) => old(self)@.resolution(call.token_view(), call.expects_view())
                    == Some(Ok::<Frame, RTDErrorView>(frame)),
                Some(Err(error)) => old(self)@.resolution(call.token_view(), call.expects_view())
                    == Some(Err::<Frame, RTDErrorView>(error@)),
            },
    {
        match self.correlator.poll(call.token()) {
            SlotPoll::Pending => None,
            SlotPoll::Cancelled => {
                assert(old(self)@.slots.remove(call.token_view()) =~= old(self)@.slots);
                Some(Err(RTDError::Cancelled))
            },
            SlotPoll::Ready(frame) => Some(frame.into_response(call.expects())),
        }
    }

    /// Gives a call up: its registration is removed, and a response that
    /// arrives later is routed as an update.
    pub fn cancel(&mut self, call: &PendingCall)
        ensures
            final(self).id() == old(self).id(),
            final(self).parameters() == old(self).parameters(),
            final(self)@ == old(self)@.cancelled(call.token_view()),
    {
        self.correlator.unsubscribe(call.token());
    }

    /// Ends a call whose request the transport could not send: its
    /// registration is removed, and the call fails with `TransportFailure`.
    pub fn send_failed(&mut self, call: &PendingCall) -> (error: RTDError)
        ensures
            final(self).id() == old(self).id(),
            final(self).parameters() == old(self).parameters(),
            final(self)@ == old(self)@.cancelled(call.token_view()),
            error@ == RTDErrorView::TransportFailure,
    {
        self.correlator.unsubscribe(call.token());
        RTDError::TransportFailure
    }

    /// Takes in one reported handshake phase, in the order of arrival: the
    /// lifecycle state follows, and the action that the phase asks for is
    /// returned.
    pub fn advance(&mut self, phase: AuthorizationState) -> (action: AuthAction)
        ensures
            final(self).id() == old(self).id(),
            final(self).parameters() == old(self).parameters(),
            final(self)@ == old(self)@.with_handshake(old(self)@.handshake.after(phase)),
            action == old(self)@.handshake.state.action(phase),
    {
        self.handshake.advance(phase)
    }

    /// Records that a request of the handshake failed: the client fails with
    /// the error's message, unless it is closed or has failed before.
    pub fn handshake_failed(&mut self, error: &RTDError)
        ensures
            final(self).id() == old(self).id(),
            final(self).parameters() == old(self).parameters(),
            final(self)@ == old(self)@.with_handshake(
                old(self)@.handshake.failed(error@.message()),
            ),
    {
        let reason = error.message();
        self.handshake.fail(reason.as_str());
    }

    /// Records that no further handshake phase will be reported: a client
    /// that never opened is closed.
    pub fn handshake_ended(&mut self)
        ensures
            final(self).id() == old(self).id(),
            final(self).parameters() == old(self).parameters(),
            final(self)@ == old(self)@.with_handshake(old(self)@.handshake.ended()),
    {
        self.handshake.end();
    }

    /// Reads the outcome of the handshake: `None` while the client is
    /// uninitialized, then, once, the state it has reached. Any later read is
    /// refused as a bad request.
    pub fn wait_for_auth(&mut self) -> (outcome: Result<Option<ClientState>, RTDError>)
        ensures
            final(self).id() == old(self).id(),
            final(self).parameters() == old(self).parameters(),
            final(self)@ == old(self)@.with_handshake(old(self)@.handshake.read()),
            match outcome {
                Ok(Some(state)) => old(self)@.handshake.outcome() == Ok::<
                    Option<ClientStateView>,
                    RTDErrorView,
                >(Some(state@)),
                Ok(None) => old(self)@.handshake.outcome() == Ok::<
                    Option<ClientStateView>,
                    RTDErrorView,
                >(None),
                Err(error) => old(self)@.handshake.outcome() == Err::<
                    Option<ClientStateView>,
                    RTDErrorView,
                >(error@),
            },
    {
        self.handshake.wait_for_auth()
    }
}

/// Collects what a client is made of.
#[derive(Debug)]
pub struct ClientBuilder {
    tdlib_parameters: Option<TdlibParameters>,
}

impl Default for ClientBuilder {
    fn default() -> (builder: Self)
        ensures
            builder.parameters() is None,
    {
        ClientBuilder { tdlib_parameters: None }
    }
}

impl ClientBuilder {
    /// The settings given so far.
    pub closed spec fn parameters(&self) -> Option<TdlibParameters> {
        self.tdlib_parameters
    }

    /// The settings given so far.
    pub fn tdlib_parameters(&self) -> (given: Option<&TdlibParameters>)
        ensures
            match given {
                Some(parameters) => self.parameters() == Some(*parameters),
                None => self.parameters() is None,
            },
    {
        match &self.tdlib_parameters {
            Some(parameters) => Some(parameters),
            None => None,
        }
    }

    /// Sets the settings of the native component.
    pub fn with_tdlib_parameters(self, tdlib_parameters: TdlibParameters) -> (builder: Self)
        ensures
            builder.parameters() == Some(tdlib_parameters),
    {
        ClientBuilder { tdlib_parameters: Some(tdlib_parameters) }
    }

    /// Makes the client, with the identity that the transport assigned to
    /// it. Fails with a bad request where no settings were given.
    pub fn build(self, client_id: i32) -> (made: Result<Client, RTDError>)
        ensures
            match made {
                Ok(client) => self.parameters() == Some(client.parameters()) && client.id()
                    == client_id && client@ == ClientView::initial(),
                Err(error) => self.parameters() is None && error@ == RTDErrorView::BadRequest(
                    no_parameters(),
                ),
            },
    {
        match self.tdlib_parameters {
            None => Err(RTDError::BadRequest("tdlib_parameters not set".to_owned())),
            Some(tdlib_parameters) => Ok(Client::new(client_id, tdlib_parameters)),
        }
    }
}

} // verus!
