use vstd::prelude::*;

verus! {

/// Relies on anyhow::Error only as an opaque value: the transport reports a
/// payload that could not be decoded with one, and the session drops it.
#[verifier::external_type_specification]
#[verifier::external_body]
pub struct ExAnyhowError(anyhow::Error);

/// A payload exchanged with the relay, in either direction.
#[derive(Debug, PartialEq, Eq)]
pub enum Message {
    Text(String),
}

impl Message {
    /// The text that the message carries.
    pub open spec fn text(self) -> Seq<char> {
        match self {
            Message::Text(t) => t@,
        }
    }
}

/// An event delivered to the session, from the view or from the transport.
pub enum Msg {
    /// Ask the transport to open the socket.
    Connect,
    /// The transport reports that the socket is open.
    Connected,
    /// The transport reports that the socket closed or failed.
    Disconnected,
    /// The text of the input box changed.
    UpdateInput(String),
    /// The user asked to send the current draft.
    Send,
    /// The transport delivered a payload, decoded or not.
    Received(Result<Message, anyhow::Error>),
}

/// The mathematical form of an event: a payload that failed to decode is
/// `Received(None)`.
pub enum Event {
    Connect,
    Connected,
    Disconnected,
    UpdateInput(Seq<char>),
    Send,
    Received(Option<Seq<char>>),
}

impl View for Msg {
    type V = Event;

    open spec fn view(&self) -> Event {
        match self {
            Msg::Connect => Event::Connect,
            Msg::Connected => Event::Connected,
            Msg::Disconnected => Event::Disconnected,
            Msg::UpdateInput(s) => Event::UpdateInput(s@),
            Msg::Send => Event::Send,
            Msg::Received(Ok(m)) => Event::Received(Some(m.text())),
            Msg::Received(Err(_)) => Event::Received(None),
        }
    }
}

} // verus!
