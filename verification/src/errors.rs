//! The errors a caller of the client can meet.

use vstd::prelude::*;

verus! {

/// What can go wrong for a caller.
#[derive(Debug, PartialEq, Eq)]
pub enum RTDError {
    /// The caller misused the interface; the text says how.
    BadRequest(String),
    /// The correlation token is already registered.
    AlreadySubscribed,
    /// The registration was removed before a response arrived.
    Cancelled,
    /// A frame could not be decoded, or carried an unexpected discriminant.
    ProtocolError,
    /// The native component answered with an error frame; the text is its
    /// message.
    RemoteError(String),
    /// A transport primitive itself failed.
    TransportFailure,
}

/// An [`RTDError`] with its texts as sequences of characters.
pub enum RTDErrorView {
    BadRequest(Seq<char>),
    AlreadySubscribed,
    Cancelled,
    ProtocolError,
    RemoteError(Seq<char>),
    TransportFailure,
}

impl View for RTDError {
    type V = RTDErrorView;

    open spec fn view(&self) -> RTDErrorView {
        match self {
            RTDError::BadRequest(reason) => RTDErrorView::BadRequest(reason@),
            RTDError::AlreadySubscribed => RTDErrorView::AlreadySubscribed,
            RTDError::Cancelled => RTDErrorView::Cancelled,
            RTDError::ProtocolError => RTDErrorView::ProtocolError,
            RTDError::RemoteError(message) => RTDErrorView::RemoteError(message@),
            RTDError::TransportFailure => RTDErrorView::TransportFailure,
        }
    }
}

impl RTDErrorView {
    /// The text that describes the error to a person.
    pub open spec fn message(self) -> Seq<char> {
        match self {
            RTDErrorView::BadRequest(reason) => reason,
            RTDErrorView::AlreadySubscribed => "correlation token already subscribed"@,
            RTDErrorView::Cancelled => "call cancelled"@,
            RTDErrorView::ProtocolError => "protocol error"@,
            RTDErrorView::RemoteError(message) => message,
            RTDErrorView::TransportFailure => "transport failure"@,
        }
    }
}

impl Clone for RTDError {
    fn clone(&self) -> (copy: Self)
        ensures
            copy == *self,
    {
        match self {
            RTDError::BadRequest(reason) => RTDError::BadRequest(reason.clone()),
            RTDError::AlreadySubscribed => RTDError::AlreadySubscribed,
            RTDError::Cancelled => RTDError::Cancelled,
            RTDError::ProtocolError => RTDError::ProtocolError,
            RTDError::RemoteError(message) => RTDError::RemoteError(message.clone()),
            RTDError::TransportFailure => RTDError::TransportFailure,
        }
    }
}

impl RTDError {
    /// The text that describes the error to a person: the reason of a bad
    /// request, the message of a remote error, a fixed phrase for the rest.
    pub fn message(&self) -> (text: String)
        ensures
            text@ == self@.message(),
    {
        match self {
            RTDError::BadRequest(reason) => reason.clone(),
            RTDError::AlreadySubscribed => "correlation token already subscribed".to_owned(),
            RTDError::Cancelled => "call cancelled".to_owned(),
            RTDError::ProtocolError => "protocol error".to_owned(),
            RTDError::RemoteError(message) => message.clone(),
            RTDError::TransportFailure => "transport failure".to_owned(),
        }
    }
}

} // verus!
