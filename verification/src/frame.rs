//! Frames: the decoded form of one message of the native component.

use crate::authorization::AuthorizationState;
use crate::errors::{RTDError, RTDErrorView};
use crate::json::{json_parse, parse, string_at, LONGEST_TEXT};
use crate::text::same_text;
use vstd::prelude::*;

verus! {

/// One decoded message: its text as received, its discriminant, and what the
/// routing reads from it. A frame does not change once decoded.
#[derive(Debug, PartialEq, Eq)]
pub struct Frame {
    raw: String,
    td_type: String,
    extra: Option<String>,
    message: Option<String>,
    authorization_state: Option<AuthorizationState>,
}

/// A [`Frame`] with its texts as sequences of characters.
pub struct FrameView {
    /// The text as received.
    pub raw: Seq<char>,
    /// The discriminant, the member `@type`.
    pub td_type: Seq<char>,
    /// The correlation token, the member `@extra`, where it is a string.
    pub extra: Option<Seq<char>>,
    /// The member `message`, where it is a string.
    pub message: Option<Seq<char>>,
    /// The reported handshake phase, for an authorization update.
    pub authorization_state: Option<AuthorizationState>,
}

/// What the routing makes of a frame before the correlator is asked.
#[derive(Clone, Copy, Debug, PartialEq, Eq, Structural)]
pub enum FrameKind {
    /// The frame carries a correlation token.
    HasToken,
    /// The frame carries no token and reports a handshake phase.
    AuthorizationUpdate,
    /// Any other frame.
    PlainUpdate,
}

/// The discriminant of an authorization update.
pub open spec fn authorization_update_type() -> Seq<char> {
    "updateAuthorizationState"@
}

/// The discriminant of an error frame.
pub open spec fn error_type() -> Seq<char> {
    "error"@
}

/// The entry of a map under a key, if there is one.
pub open spec fn entry(strings: Map<Seq<char>, Seq<char>>, key: Seq<char>) -> Option<Seq<char>> {
    if strings.contains_key(key) {
        Some(strings[key])
    } else {
        None
    }
}

/// The view of an optional text.
pub open spec fn text_view(text: Option<String>) -> Option<Seq<char>> {
    match text {
        Some(t) => Some(t@),
        None => None,
    }
}

/// The frame that a message text and the strings read from it make up.
///
/// A frame needs a discriminant. An authorization update needs, besides, a
/// known handshake phase; no other frame reports one.
pub open spec fn assemble(
    raw: Seq<char>,
    td_type: Option<Seq<char>>,
    extra: Option<Seq<char>>,
    message: Option<Seq<char>>,
    state_tag: Option<Seq<char>>,
) -> Option<FrameView> {
    match td_type {
        None => None,
        Some(td_type) => if td_type == authorization_update_type() {
            match state_tag {
                None => None,
                Some(tag) => match AuthorizationState::of_tag(tag) {
                    None => None,
                    Some(state) => Some(
                        FrameView { raw, td_type, extra, message, authorization_state: Some(state) },
                    ),
                },
            }
        } else {
            Some(FrameView { raw, td_type, extra, message, authorization_state: None })
        },
    }
}

/// The frame that a message text decodes to: the text has to parse as JSON,
/// and the members `@type`, `@extra`, `message` and `authorization_state.@type`
/// are read where they are strings. A text of more than [`LONGEST_TEXT`]
/// characters is not parsed and decodes to nothing.
pub open spec fn decoded(text: Seq<char>) -> Option<FrameView> {
    if text.len() > LONGEST_TEXT {
        None
    } else {
        match json_parse(text) {
            None => None,
            Some(strings) => assemble(
                text,
                entry(strings, "/@type"@),
                entry(strings, "/@extra"@),
                entry(strings, "/message"@),
                entry(strings, "/authorization_state/@type"@),
            ),
        }
    }
}

impl FrameView {
    /// See [`FrameKind`].
    pub open spec fn kind(self) -> FrameKind {
        if self.extra is Some {
            FrameKind::HasToken
        } else if self.authorization_state is Some {
            FrameKind::AuthorizationUpdate
        } else {
            FrameKind::PlainUpdate
        }
    }

    /// How a call that expects the discriminant `expects` ends on this
    /// frame: with the frame where it carries that discriminant, with the
    /// remote error where it is an error frame (an absent message reads as
    /// empty), and with a protocol error on any other discriminant.
    pub open spec fn response(self, expects: Seq<char>) -> Result<FrameView, RTDErrorView> {
        if self.td_type == expects {
            Ok(self)
        } else if self.td_type == error_type() {
            Err(
                RTDErrorView::RemoteError(
                    match self.message {
                        Some(message) => message,
                        None => Seq::empty(),
                    },
                ),
            )
        } else {
            Err(RTDErrorView::ProtocolError)
        }
    }
}

impl View for Frame {
    type V = FrameView;

    closed spec fn view(&self) -> FrameView {
        FrameView {
            raw: self.raw@,
            td_type: self.td_type@,
            extra: text_view(self.extra),
            message: text_view(self.message),
            authorization_state: self.authorization_state,
        }
    }
}

impl Clone for Frame {
    fn clone(&self) -> (copy: Self)
        ensures
            copy == *self,
    {
        Frame {
            raw: self.raw.clone(),
            td_type: self.td_type.clone(),
            extra: self.extra.clone(),
            message: self.message.clone(),
            authorization_state: self.authorization_state,
        }
    }
}

impl Frame {
    /// Makes a frame of a message text and the strings read from it.
    /// Fails with a protocol error where [`assemble`] finds no frame.
    pub fn from_parts(
        raw: String,
        td_type: Option<String>,
        extra: Option<String>,
        message: Option<String>,
        state_tag: Option<String>,
    ) -> (made: Result<Frame, RTDError>)
        ensures
            match made {
                Ok(frame) => assemble(
                    raw@,
                    text_view(td_type),
                    text_view(extra),
                    text_view(message),
                    text_view(state_tag),
                ) == Some(frame@),
                Err(error) => error@ == RTDErrorView::ProtocolError && assemble(
                    raw@,
                    text_view(td_type),
                    text_view(extra),
                    text_view(message),
                    text_view(state_tag),
                ) is None,
            },
    {
        let td_type = match td_type {
            Some(td_type) => td_type,
            None => {
                return Err(RTDError::ProtocolError);
            },
        };
        let authorization_state = if same_text(td_type.as_str(), "updateAuthorizationState") {
            let state = match &state_tag {
                Some(tag) => AuthorizationState::from_tag(tag.as_str()),
                None => None,
            };
            if state.is_none() {
                return Err(RTDError::ProtocolError);
            }
            state
        } else {
            None
        };
        Ok(Frame { raw, td_type, extra, message, authorization_state })
    }

    /// Decodes a message text. Fails with a protocol error where the text is
    /// longer than [`LONGEST_TEXT`], is not JSON, or holds no frame.
    pub fn decode(text: &str) -> (made: Result<Frame, RTDError>)
        ensures
            match made {
                Ok(frame) => decoded(text@) == Some(frame@),
                Err(error) => error@ == RTDErrorView::ProtocolError && decoded(text@) is None,
            },
    {
        if text.unicode_len() > LONGEST_TEXT {
            return Err(RTDError::ProtocolError);
        }
        let document = match parse(text) {
            Ok(document) => document,
            Err(_) => {
                return Err(RTDError::ProtocolError);
            },
        };
        let td_type = string_at(&document, "/@type");
        let extra = string_at(&document, "/@extra");
        let message = string_at(&document, "/message");
        let state_tag = string_at(&document, "/authorization_state/@type");
        Frame::from_parts(text.to_owned(), td_type, extra, message, state_tag)
    }

    /// The text as received.
    pub fn raw(&self) -> (text: &str)
        ensures
            text@ == self@.raw,
    {
        self.raw.as_str()
    }

    /// The discriminant.
    pub fn td_type(&self) -> (text: &str)
        ensures
            text@ == self@.td_type,
    {
        self.td_type.as_str()
    }

    /// The correlation token, if the frame carries one.
    pub fn extra(&self) -> (token: Option<&str>)
        ensures
            token.deep_view() == self@.extra,
    {
        match &self.extra {
            Some(token) => Some(token.as_str()),
            None => None,
        }
    }

    /// The member `message`, if the frame carries one.
    pub fn message(&self) -> (text: Option<&str>)
        ensures
            text.deep_view() == self@.message,
    {
        match &self.message {
            Some(message) => Some(message.as_str()),
            None => None,
        }
    }

    /// The reported handshake phase, for an authorization update.
    pub fn authorization_state(&self) -> (state: Option<AuthorizationState>)
        ensures
            state == self@.authorization_state,
    {
        self.authorization_state
    }

    /// See [`FrameKind`].
    pub fn kind(&self) -> (kind: FrameKind)
        ensures
            kind == self@.kind(),
    {
        if self.extra.is_some() {
            FrameKind::HasToken
        } else if self.authorization_state.is_some() {
            FrameKind::AuthorizationUpdate
        } else {
            FrameKind::PlainUpdate
        }
    }

    /// Ends a call that expects the discriminant `expects` on this frame;
    /// see [`FrameView::response`].
    pub fn into_response(self, expects: &str) -> (outcome: Result<Frame, RTDError>)
        ensures
            match outcome {
                Ok(frame) => self@.response(expects@) == Ok::<FrameView, RTDErrorView>(frame@)
                    && frame == self,
                Err(error) => self@.response(expects@) == Err::<FrameView, RTDErrorView>(error@),
            },
    {
        if same_text(self.td_type.as_str(), expects) {
            Ok(self)
        } else if same_text(self.td_type.as_str(), "error") {
            match self.message {
                Some(message) => Err(RTDError::RemoteError(message)),
                None => Err(RTDError::RemoteError(String::new())),
            }
        } else {
            Err(RTDError::ProtocolError)
        }
    }
}

} // verus!
