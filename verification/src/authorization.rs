//! The phases of the authorization handshake.

use crate::text::same_text;
use vstd::prelude::*;

verus! {

/// A value of the wire vocabulary that travels under a discriminant.
pub trait TD {
    /// The discriminant under which the value travels.
    spec fn tag(&self) -> Seq<char>;

    /// The discriminant under which the value travels.
    fn td_name(&self) -> (name: &'static str)
        ensures
            name@ == self.tag(),
    ;
}

/// The handshake phase that the native component reports.
#[derive(Clone, Copy, Debug, PartialEq, Eq, Structural)]
pub enum AuthorizationState {
    /// The library parameters are awaited.
    WaitParameters,
    /// The key of the local database is awaited.
    WaitEncryptionKey,
    /// The user's phone number is awaited.
    WaitPhoneNumber,
    /// The user is unknown and would have to register.
    WaitRegistration,
    /// The authentication code is awaited.
    WaitCode,
    /// The account password is awaited.
    WaitPassword,
    /// The login has to be confirmed on another device.
    WaitOtherDeviceConfirmation,
    /// The handshake is complete.
    Ready,
    /// The user is being logged out.
    LoggingOut,
    /// The native component is shutting down.
    Closing,
    /// The native component has shut down.
    Closed,
}

impl AuthorizationState {
    /// The state that travels under a discriminant, if any does.
    pub open spec fn of_tag(tag: Seq<char>) -> Option<AuthorizationState> {
        if tag == "authorizationStateWaitTdlibParameters"@ {
            Some(AuthorizationState::WaitParameters)
        } else if tag == "authorizationStateWaitEncryptionKey"@ {
            Some(AuthorizationState::WaitEncryptionKey)
        } else if tag == "authorizationStateWaitPhoneNumber"@ {
            Some(AuthorizationState::WaitPhoneNumber)
        } else if tag == "authorizationStateWaitRegistration"@ {
            Some(AuthorizationState::WaitRegistration)
        } else if tag == "authorizationStateWaitCode"@ {
            Some(AuthorizationState::WaitCode)
        } else if tag == "authorizationStateWaitPassword"@ {
            Some(AuthorizationState::WaitPassword)
        } else if tag == "authorizationStateWaitOtherDeviceConfirmation"@ {
            Some(AuthorizationState::WaitOtherDeviceConfirmation)
        } else if tag == "authorizationStateReady"@ {
            Some(AuthorizationState::Ready)
        } else if tag == "authorizationStateLoggingOut"@ {
            Some(AuthorizationState::LoggingOut)
        } else if tag == "authorizationStateClosing"@ {
            Some(AuthorizationState::Closing)
        } else if tag == "authorizationStateClosed"@ {
            Some(AuthorizationState::Closed)
        } else {
            None
        }
    }

    /// Reads a state from its discriminant. Any other text gives `None`.
    pub fn from_tag(tag: &str) -> (state: Option<AuthorizationState>)
        ensures
            state == Self::of_tag(tag@),
    {
        if same_text(tag, "authorizationStateWaitTdlibParameters") {
            Some(AuthorizationState::WaitParameters)
        } else if same_text(tag, "authorizationStateWaitEncryptionKey") {
            Some(AuthorizationState::WaitEncryptionKey)
        } else if same_text(tag, "authorizationStateWaitPhoneNumber") {
            Some(AuthorizationState::WaitPhoneNumber)
        } else if same_text(tag, "authorizationStateWaitRegistration") {
            Some(AuthorizationState::WaitRegistration)
        } else if same_text(tag, "authorizationStateWaitCode") {
            Some(AuthorizationState::WaitCode)
        } else if same_text(tag, "authorizationStateWaitPassword") {
            Some(AuthorizationState::WaitPassword)
        } else if same_text(tag, "authorizationStateWaitOtherDeviceConfirmation") {
            Some(AuthorizationState::WaitOtherDeviceConfirmation)
        } else if same_text(tag, "authorizationStateReady") {
            Some(AuthorizationState::Ready)
        } else if same_text(tag, "authorizationStateLoggingOut") {
            Some(AuthorizationState::LoggingOut)
        } else if same_text(tag, "authorizationStateClosing") {
            Some(AuthorizationState::Closing)
        } else if same_text(tag, "authorizationStateClosed") {
            Some(AuthorizationState::Closed)
        } else {
            None
        }
    }

    /// Every state is read back from its own discriminant: no two states
    /// share one.
    pub proof fn tag_round_trip(self)
        ensures
            Self::of_tag(self.tag()) == Some(self),
    {
        reveal_strlit("authorizationStateWaitTdlibParameters");
        reveal_strlit("authorizationStateWaitEncryptionKey");
        reveal_strlit("authorizationStateWaitPhoneNumber");
        reveal_strlit("authorizationStateWaitRegistration");
        reveal_strlit("authorizationStateWaitCode");
        reveal_strlit("authorizationStateWaitPassword");
        reveal_strlit("authorizationStateWaitOtherDeviceConfirmation");
        reveal_strlit("authorizationStateReady");
        reveal_strlit("authorizationStateLoggingOut");
        reveal_strlit("authorizationStateClosing");
        reveal_strlit("authorizationStateClosed");
        assert("authorizationStateWaitTdlibParameters"@.len() == 37);
        assert("authorizationStateWaitEncryptionKey"@.len() == 35);
        assert("authorizationStateWaitPhoneNumber"@.len() == 33);
        assert("authorizationStateWaitRegistration"@.len() == 34);
        assert("authorizationStateWaitCode"@.len() == 26);
        assert("authorizationStateWaitPassword"@.len() == 30);
        assert("authorizationStateWaitOtherDeviceConfirmation"@.len() == 45);
        assert("authorizationStateReady"@.len() == 23);
        assert("authorizationStateLoggingOut"@.len() == 28);
        assert("authorizationStateClosing"@.len() == 25);
        assert("authorizationStateClosed"@.len() == 24);
    }
}

impl TD for AuthorizationState {
    open spec fn tag(&self) -> Seq<char> {
        match self {
            AuthorizationState::WaitParameters => "authorizationStateWaitTdlibParameters"@,
            AuthorizationState::WaitEncryptionKey => "authorizationStateWaitEncryptionKey"@,
            AuthorizationState::WaitPhoneNumber => "authorizationStateWaitPhoneNumber"@,
            AuthorizationState::WaitRegistration => "authorizationStateWaitRegistration"@,
            AuthorizationState::WaitCode => "authorizationStateWaitCode"@,
            AuthorizationState::WaitPassword => "authorizationStateWaitPassword"@,
            AuthorizationState::WaitOtherDeviceConfirmation => "authorizationStateWaitOtherDeviceConfirmation"@,
            AuthorizationState::Ready => "authorizationStateReady"@,
            AuthorizationState::LoggingOut => "authorizationStateLoggingOut"@,
            AuthorizationState::Closing => "authorizationStateClosing"@,
            AuthorizationState::Closed => "authorizationStateClosed"@,
        }
    }

    fn td_name(&self) -> (name: &'static str) {
        match self {
            AuthorizationState::WaitParameters => "authorizationStateWaitTdlibParameters",
            AuthorizationState::WaitEncryptionKey => "authorizationStateWaitEncryptionKey",
            AuthorizationState::WaitPhoneNumber => "authorizationStateWaitPhoneNumber",
            AuthorizationState::WaitRegistration => "authorizationStateWaitRegistration",
            AuthorizationState::WaitCode => "authorizationStateWaitCode",
            AuthorizationState::WaitPassword => "authorizationStateWaitPassword",
            AuthorizationState::WaitOtherDeviceConfirmation => "authorizationStateWaitOtherDeviceConfirmation",
            AuthorizationState::Ready => "authorizationStateReady",
            AuthorizationState::LoggingOut => "authorizationStateLoggingOut",
            AuthorizationState::Closing => "authorizationStateClosing",
            AuthorizationState::Closed => "authorizationStateClosed",
        }
    }
}

} // verus!
