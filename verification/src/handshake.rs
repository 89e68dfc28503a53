//! The authorization handshake: what each reported phase asks of the client,
//! and how the client's lifecycle follows.

use crate::authorization::{AuthorizationState, TD};
use crate::errors::{RTDError, RTDErrorView};
use crate::frame::Frame;
use crate::text::{trim, trimmed};
use vstd::prelude::*;

verus! {

/// The lifecycle of one client, as its owner sees it.
#[derive(Debug, PartialEq, Eq)]
pub enum ClientState {
    /// The handshake has not reached `Ready` yet.
    Uninitialized,
    /// The client is open: calls are meaningful.
    Opened,
    /// The client closed properly.
    Closed,
    /// The client closed with an error; the text says which.
    Error(String),
}

/// A [`ClientState`] with its text as a sequence of characters.
pub enum ClientStateView {
    Uninitialized,
    Opened,
    Closed,
    Error(Seq<char>),
}

impl View for ClientState {
    type V = ClientStateView;

    open spec fn view(&self) -> ClientStateView {
        match self {
            ClientState::Uninitialized => ClientStateView::Uninitialized,
            ClientState::Opened => ClientStateView::Opened,
            ClientState::Closed => ClientStateView::Closed,
            ClientState::Error(message) => ClientStateView::Error(message@),
        }
    }
}

impl Clone for ClientState {
    fn clone(&self) -> (copy: Self)
        ensures
            copy == *self,
    {
        match self {
            ClientState::Uninitialized => ClientState::Uninitialized,
            ClientState::Opened => ClientState::Opened,
            ClientState::Closed => ClientState::Closed,
            ClientState::Error(message) => ClientState::Error(message.clone()),
        }
    }
}

/// The secrets that the handshake asks the user for.
#[derive(Clone, Copy, Debug, PartialEq, Eq, Structural)]
pub enum SecretKind {
    /// The key of the local database.
    EncryptionKey,
    /// The user's phone number.
    PhoneNumber,
    /// The authentication code sent to the user.
    Code,
    /// The account password.
    Password,
}

/// What one reported handshake phase asks of the client.
#[derive(Clone, Copy, Debug, PartialEq, Eq, Structural)]
pub enum AuthAction {
    /// Send the configured parameters.
    SendParameters,
    /// Ask the handler for a secret and send it.
    Ask(SecretKind),
    /// The client has just opened: tell who waits for it. This comes once.
    SignalReady,
    /// No request is due; the phase is passed on to the owner.
    Lifecycle(AuthorizationState),
    /// The handshake has just failed; the client state holds the reason.
    Fail,
    /// The client was closed or had failed before: nothing is done.
    Ignore,
}

/// The settings that the native component is configured with.
#[derive(Debug, Default, PartialEq, Eq)]
pub struct TdlibParameters {
    pub use_test_dc: bool,
    pub database_directory: String,
    pub files_directory: String,
    pub use_file_database: bool,
    pub use_chat_info_database: bool,
    pub use_message_database: bool,
    pub use_secret_chats: bool,
    pub api_id: i32,
    pub api_hash: String,
    pub system_language_code: String,
    pub device_model: String,
    pub system_version: String,
    pub application_version: String,
    pub enable_storage_optimizer: bool,
    pub ignore_file_names: bool,
}

impl Clone for TdlibParameters {
    fn clone(&self) -> (copy: Self)
        ensures
            copy == *self,
    {
        TdlibParameters {
            use_test_dc: self.use_test_dc,
            database_directory: self.database_directory.clone(),
            files_directory: self.files_directory.clone(),
            use_file_database: self.use_file_database,
            use_chat_info_database: self.use_chat_info_database,
            use_message_database: self.use_message_database,
            use_secret_chats: self.use_secret_chats,
            api_id: self.api_id,
            api_hash: self.api_hash.clone(),
            system_language_code: self.system_language_code.clone(),
            device_model: self.device_model.clone(),
            system_version: self.system_version.clone(),
            application_version: self.application_version.clone(),
            enable_storage_optimizer: self.enable_storage_optimizer,
            ignore_file_names: self.ignore_file_names,
        }
    }
}

/// A request of the handshake.
#[derive(Debug, PartialEq, Eq)]
pub enum Function {
    /// Configures the native component.
    SetTdlibParameters(TdlibParameters),
    /// Answers `WaitEncryptionKey`.
    CheckDatabaseEncryptionKey(String),
    /// Answers `WaitPhoneNumber`.
    SetAuthenticationPhoneNumber(String),
    /// Answers `WaitCode`.
    CheckAuthenticationCode(String),
    /// Answers `WaitPassword`.
    CheckAuthenticationPassword(String),
}

impl Clone for Function {
    fn clone(&self) -> (copy: Self)
        ensures
            copy == *self,
    {
        match self {
            Function::SetTdlibParameters(parameters) => Function::SetTdlibParameters(
                parameters.clone(),
            ),
            Function::CheckDatabaseEncryptionKey(key) => Function::CheckDatabaseEncryptionKey(
                key.clone(),
            ),
            Function::SetAuthenticationPhoneNumber(number) => Function::SetAuthenticationPhoneNumber(
                number.clone(),
            ),
            Function::CheckAuthenticationCode(code) => Function::CheckAuthenticationCode(
                code.clone(),
            ),
            Function::CheckAuthenticationPassword(password) => Function::CheckAuthenticationPassword(
                password.clone(),
            ),
        }
    }
}

impl TD for Function {
    open spec fn tag(&self) -> Seq<char> {
        match self {
            Function::SetTdlibParameters(_) => "setTdlibParameters"@,
            Function::CheckDatabaseEncryptionKey(_) => "checkDatabaseEncryptionKey"@,
            Function::SetAuthenticationPhoneNumber(_) => "setAuthenticationPhoneNumber"@,
            Function::CheckAuthenticationCode(_) => "checkAuthenticationCode"@,
            Function::CheckAuthenticationPassword(_) => "checkAuthenticationPassword"@,
        }
    }

    fn td_name(&self) -> (name: &'static str) {
        match self {
            Function::SetTdlibParameters(_) => "setTdlibParameters",
            Function::CheckDatabaseEncryptionKey(_) => "checkDatabaseEncryptionKey",
            Function::SetAuthenticationPhoneNumber(_) => "setAuthenticationPhoneNumber",
            Function::CheckAuthenticationCode(_) => "checkAuthenticationCode",
            Function::CheckAuthenticationPassword(_) => "checkAuthenticationPassword",
        }
    }
}

impl Function {
    /// The request that carries a secret of a kind.
    pub open spec fn answering(kind: SecretKind, secret: String) -> Function {
        match kind {
            SecretKind::EncryptionKey => Function::CheckDatabaseEncryptionKey(secret),
            SecretKind::PhoneNumber => Function::SetAuthenticationPhoneNumber(secret),
            SecretKind::Code => Function::CheckAuthenticationCode(secret),
            SecretKind::Password => Function::CheckAuthenticationPassword(secret),
        }
    }

    /// The request that carries a secret of a kind.
    pub fn answer(kind: SecretKind, secret: String) -> (request: Function)
        ensures
            request == Self::answering(kind, secret),
    {
        match kind {
            SecretKind::EncryptionKey => Function::CheckDatabaseEncryptionKey(secret),
            SecretKind::PhoneNumber => Function::SetAuthenticationPhoneNumber(secret),
            SecretKind::Code => Function::CheckAuthenticationCode(secret),
            SecretKind::Password => Function::CheckAuthenticationPassword(secret),
        }
    }

    /// The discriminant of the response that every handshake request expects.
    pub fn expects(&self) -> (name: &'static str)
        ensures
            name@ == "ok"@,
    {
        "ok"
    }
}

/// The reason recorded when `Ready` is reported to an open client.
pub open spec fn ready_twice() -> Seq<char> {
    "received Opened state again"@
}

/// The reason recorded when a phase is reported that the client cannot
/// answer.
pub open spec fn unsupported_state() -> Seq<char> {
    "authorization state not supported"@
}

/// The reason of the error with which a second read of the handshake's
/// outcome is refused.
pub open spec fn already_initialized() -> Seq<char> {
    "client already initialized"@
}

impl ClientStateView {
    /// How far the lifecycle has come: an uninitialized client may open, an
    /// open client may close or fail, and there it ends.
    pub open spec fn rank(self) -> nat {
        match self {
            ClientStateView::Uninitialized => 0,
            ClientStateView::Opened => 1,
            ClientStateView::Closed => 2,
            ClientStateView::Error(_) => 2,
        }
    }

    /// Whether the state is final: a closed or failed client stays so.
    pub open spec fn is_terminal(self) -> bool {
        self is Closed || self is Error
    }

    /// The state after a failure with a reason. A final state stays.
    pub open spec fn failed(self, reason: Seq<char>) -> ClientStateView {
        if self.is_terminal() {
            self
        } else {
            ClientStateView::Error(reason)
        }
    }

    /// The state after the stream of handshake phases has ended: a client
    /// that never opened is closed.
    pub open spec fn ended(self) -> ClientStateView {
        if self is Uninitialized {
            ClientStateView::Closed
        } else {
            self
        }
    }

    /// The state after a handshake phase is reported.
    pub open spec fn after(self, phase: AuthorizationState) -> ClientStateView {
        if self.is_terminal() {
            self
        } else {
            match phase {
                AuthorizationState::Ready => if self is Opened {
                    ClientStateView::Error(ready_twice())
                } else {
                    ClientStateView::Opened
                },
                AuthorizationState::Closed => ClientStateView::Closed,
                AuthorizationState::WaitRegistration
                | AuthorizationState::WaitOtherDeviceConfirmation => ClientStateView::Error(
                    unsupported_state(),
                ),
                _ => self,
            }
        }
    }

    /// What a reported handshake phase asks of a client in this state.
    pub open spec fn action(self, phase: AuthorizationState) -> AuthAction {
        if self.is_terminal() {
            AuthAction::Ignore
        } else {
            match phase {
                AuthorizationState::WaitParameters => AuthAction::SendParameters,
                AuthorizationState::WaitEncryptionKey => AuthAction::Ask(SecretKind::EncryptionKey),
                AuthorizationState::WaitPhoneNumber => AuthAction::Ask(SecretKind::PhoneNumber),
                AuthorizationState::WaitCode => AuthAction::Ask(SecretKind::Code),
                AuthorizationState::WaitPassword => AuthAction::Ask(SecretKind::Password),
                AuthorizationState::Ready => if self is Opened {
                    AuthAction::Fail
                } else {
                    AuthAction::SignalReady
                },
                AuthorizationState::WaitRegistration
                | AuthorizationState::WaitOtherDeviceConfirmation => AuthAction::Fail,
                AuthorizationState::LoggingOut
                | AuthorizationState::Closing
                | AuthorizationState::Closed => AuthAction::Lifecycle(phase),
            }
        }
    }
}

/// The handshake of one client: its lifecycle state, and whether the outcome
/// of the handshake has been read.
#[derive(Debug)]
pub struct Handshake {
    state: ClientState,
    resolved: bool,
}

/// A [`Handshake`] as plain values.
pub struct HandshakeView {
    /// The lifecycle state.
    pub state: ClientStateView,
    /// Whether the outcome of the handshake has been read.
    pub resolved: bool,
}

impl View for Handshake {
    type V = HandshakeView;

    closed spec fn view(&self) -> HandshakeView {
        HandshakeView { state: self.state@, resolved: self.resolved }
    }
}

impl HandshakeView {
    /// The handshake of a new client.
    pub open spec fn initial() -> HandshakeView {
        HandshakeView { state: ClientStateView::Uninitialized, resolved: false }
    }

    /// The handshake after a phase is reported.
    pub open spec fn after(self, phase: AuthorizationState) -> HandshakeView {
        HandshakeView { state: self.state.after(phase), resolved: self.resolved }
    }

    /// The handshake after a failure with a reason.
    pub open spec fn failed(self, reason: Seq<char>) -> HandshakeView {
        HandshakeView { state: self.state.failed(reason), resolved: self.resolved }
    }

    /// The handshake after the stream of phases has ended.
    pub open spec fn ended(self) -> HandshakeView {
        HandshakeView { state: self.state.ended(), resolved: self.resolved }
    }

    /// What reading the outcome gives: an error once it has been read,
    /// nothing while the client is uninitialized, else the state.
    pub open spec fn outcome(self) -> Result<Option<ClientStateView>, RTDErrorView> {
        if self.resolved {
            Err(RTDErrorView::BadRequest(already_initialized()))
        } else if self.state is Uninitialized {
            Ok(None)
        } else {
            Ok(Some(self.state))
        }
    }

    /// The handshake after its outcome is read.
    pub open spec fn read(self) -> HandshakeView {
        HandshakeView {
            state: self.state,
            resolved: self.resolved || !(self.state is Uninitialized),
        }
    }
}

impl Handshake {
    /// The handshake of a new client.
    pub fn new() -> (made: Self)
        ensures
            made@ == HandshakeView::initial(),
    {
        Handshake { state: ClientState::Uninitialized, resolved: false }
    }

    /// The lifecycle state.
    pub fn state(&self) -> (state: &ClientState)
        ensures
            state@ == self@.state,
    {
        &self.state
    }

    /// Whether the client is closed or has failed.
    fn is_terminal(&self) -> (terminal: bool)
        ensures
            terminal == self@.state.is_terminal(),
    {
        match &self.state {
            ClientState::Closed => true,
            ClientState::Error(_) => true,
            _ => false,
        }
    }

    /// Takes in one reported phase: the state follows, and the action that
    /// the phase asks for is returned.
    pub fn advance(&mut self, phase: AuthorizationState) -> (action: AuthAction)
        ensures
            final(self)@ == old(self)@.after(phase),
            action == old(self)@.state.action(phase),
    {
        if self.is_terminal() {
            return AuthAction::Ignore;
        }
        match phase {
            AuthorizationState::WaitParameters => AuthAction::SendParameters,
            AuthorizationState::WaitEncryptionKey => AuthAction::Ask(SecretKind::EncryptionKey),
            AuthorizationState::WaitPhoneNumber => AuthAction::Ask(SecretKind::PhoneNumber),
            AuthorizationState::WaitCode => AuthAction::Ask(SecretKind::Code),
            AuthorizationState::WaitPassword => AuthAction::Ask(SecretKind::Password),
            AuthorizationState::Ready => {
                let opened = match &self.state {
                    ClientState::Opened => true,
                    _ => false,
                };
                if opened {
                    self.state = ClientState::Error("received Opened state again".to_owned());
                    AuthAction::Fail
                } else {
                    self.state = ClientState::Opened;
                    AuthAction::SignalReady
                }
            },
            AuthorizationState::WaitRegistration | AuthorizationState::WaitOtherDeviceConfirmation => {
                self.state = ClientState::Error("authorization state not supported".to_owned());
                AuthAction::Fail
            },
            AuthorizationState::Closed => {
                self.state = ClientState::Closed;
                AuthAction::Lifecycle(phase)
            },
            AuthorizationState::LoggingOut | AuthorizationState::Closing => AuthAction::Lifecycle(
                phase,
            ),
        }
    }

    /// Records a failure with a reason, unless the client is closed or has
    /// failed before.
    pub fn fail(&mut self, reason: &str)
        ensures
            final(self)@ == old(self)@.failed(reason@),
    {
        if !self.is_terminal() {
            self.state = ClientState::Error(reason.to_owned());
        }
    }

    /// Records that no further phase will be reported.
    pub fn end(&mut self)
        ensures
            final(self)@ == old(self)@.ended(),
    {
        let fresh = match &self.state {
            ClientState::Uninitialized => true,
            _ => false,
        };
        if fresh {
            self.state = ClientState::Closed;
        }
    }

    /// Reads the outcome of the handshake: `None` while the client is
    /// uninitialized, then, once, the state it has reached. Any later read
    /// is refused as a bad request.
    pub fn wait_for_auth(&mut self) -> (outcome: Result<Option<ClientState>, RTDError>)
        ensures
            final(self)@ == old(self)@.read(),
            match outcome {
                Ok(Some(state)) => old(self)@.outcome() == Ok::<
                    Option<ClientStateView>,
                    RTDErrorView,
                >(Some(state@)),
                Ok(None) => old(self)@.outcome() == Ok::<Option<ClientStateView>, RTDErrorView>(
                    None,
                ),
                Err(error) => old(self)@.outcome() == Err::<Option<ClientStateView>, RTDErrorView>(
                    error@,
                ),
            },
    {
        if self.resolved {
            return Err(RTDError::BadRequest("client already initialized".to_owned()));
        }
        let fresh = match &self.state {
            ClientState::Uninitialized => true,
            _ => false,
        };
        if fresh {
            Ok(None)
        } else {
            self.resolved = true;
            Ok(Some(self.state.clone()))
        }
    }
}

/// Supplies the secrets of the handshake. Each method receives the update
/// that asks for the secret and returns it as text; it may take as long as
/// the user does.
pub trait AuthStateHandler {
    /// The authentication code.
    fn handle_wait_code(&self, wait_code: &Frame) -> String;

    /// The key of the local database.
    fn handle_encryption_key(&self, wait_encryption_key: &Frame) -> String;

    /// The account password.
    fn handle_wait_password(&self, wait_password: &Frame) -> String;

    /// The user's phone number.
    fn handle_wait_phone_number(&self, wait_phone_number: &Frame) -> String;
}

/// Whether a request is the one that an action asks for: the configured
/// parameters, or a secret of the asked kind, whatever the secret is.
pub open spec fn answers(
    request: Option<Function>,
    action: AuthAction,
    parameters: TdlibParameters,
) -> bool {
    match action {
        AuthAction::SendParameters => request == Some(Function::SetTdlibParameters(parameters)),
        AuthAction::Ask(kind) => request matches Some(function) && exists|secret: String|
            function == #[trigger] Function::answering(kind, secret),
        _ => request is None,
    }
}

/// Makes the request that an action of the handshake asks for. The
/// parameters are sent as configured; a secret is obtained from the handler,
/// which is handed the update, and sent under the request of its kind. The
/// other actions ask for no request.
pub fn handle_auth_state<A: AuthStateHandler>(
    handler: &A,
    action: AuthAction,
    update: &Frame,
    tdlib_parameters: &TdlibParameters,
) -> (request: Option<Function>)
    ensures
        answers(request, action, *tdlib_parameters),
{
    match action {
        AuthAction::SendParameters => Some(Function::SetTdlibParameters(tdlib_parameters.clone())),
        AuthAction::Ask(kind) => {
            let secret = match kind {
                SecretKind::EncryptionKey => handler.handle_encryption_key(update),
                SecretKind::PhoneNumber => handler.handle_wait_phone_number(update),
                SecretKind::Code => handler.handle_wait_code(update),
                SecretKind::Password => handler.handle_wait_password(update),
            };
            Some(Function::answer(kind, secret))
        },
        _ => None,
    }
}

/// The handler that has the user type each secret in.
#[derive(Clone, Copy, Debug, Default)]
pub struct TypeInAuthStateHandler {}

impl TypeInAuthStateHandler {
    /// What the user is told before a secret is read.
    pub fn prompt(kind: SecretKind) -> (text: &'static str)
        ensures
            text@ == match kind {
                SecretKind::EncryptionKey => "wait for encryption key"@,
                SecretKind::PhoneNumber => "wait for phone number"@,
                SecretKind::Code => "wait for auth code"@,
                SecretKind::Password => "wait for password"@,
            },
    {
        match kind {
            SecretKind::EncryptionKey => "wait for encryption key",
            SecretKind::PhoneNumber => "wait for phone number",
            SecretKind::Code => "wait for auth code",
            SecretKind::Password => "wait for password",
        }
    }

    /// The secret in a line that the user typed: the line without the white
    /// space around it.
    pub fn type_in(line: &str) -> (secret: String)
        ensures
            secret@ == trimmed(line@),
    {
        trim(line)
    }
}

} // verus!
