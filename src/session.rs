use vstd::prelude::*;
use crate::message::{Event, Message, Msg};

verus! {

/// Whether the transport has reported the socket open.
#[derive(Debug, PartialEq, Eq, Structural, Clone, Copy)]
pub enum Connection {
    Disconnected,
    Connected,
}

/// What the transport has to do after an event.
#[derive(Debug, PartialEq, Eq)]
pub enum Effect {
    /// Nothing to do.
    Nothing,
    /// Open the socket to the relay and keep its handle.
    Open,
    /// Hand this message to the held socket, without waiting for an answer.
    Send(Message),
    /// Drop the held socket handle.
    Release,
}

/// The mathematical form of an [`Effect`].
pub enum Command {
    Nothing,
    Open,
    Send(Seq<char>),
    Release,
}

impl View for Effect {
    type V = Command;

    open spec fn view(&self) -> Command {
        match self {
            Effect::Nothing => Command::Nothing,
            Effect::Open => Command::Open,
            Effect::Send(m) => Command::Send(m.text()),
            Effect::Release => Command::Release,
        }
    }
}

/// The mathematical form of a session.
pub struct Session {
    pub connection: Connection,
    /// Whether a socket handle is held, from the request to open it until the
    /// transport reports it closed.
    pub socket: bool,
    /// The lines shown, oldest first.
    pub log: Seq<Seq<char>>,
    /// The text in the input box.
    pub draft: Seq<char>,
}

/// The line logged when the socket opens.
pub open spec fn connected_line() -> Seq<char> {
    "Connected"@
}

/// The line logged when the socket closes or fails.
pub open spec fn disconnected_line() -> Seq<char> {
    "Disconnected"@
}

/// The session at mount: nothing connected, nothing logged, nothing typed.
pub open spec fn initial() -> Session {
    Session {
        connection: Connection::Disconnected,
        socket: false,
        log: Seq::empty(),
        draft: Seq::empty(),
    }
}

/// The session after event `e`.
pub open spec fn step(s: Session, e: Event) -> Session {
    match e {
        Event::Connect => Session { socket: true, ..s },
        Event::Connected => Session {
            connection: Connection::Connected,
            log: s.log.push(connected_line()),
            ..s
        },
        Event::Disconnected => Session {
            connection: Connection::Disconnected,
            socket: false,
            log: s.log.push(disconnected_line()),
            ..s
        },
        Event::UpdateInput(text) => Session { draft: text, ..s },
        Event::Send => Session { draft: Seq::empty(), ..s },
        Event::Received(Some(text)) => Session { log: s.log.push(text), ..s },
        Event::Received(None) => s,
    }
}

/// What the transport has to do after event `e` on session `s`.
pub open spec fn reaction(s: Session, e: Event) -> Command {
    match e {
        Event::Connect => Command::Open,
        Event::Disconnected => Command::Release,
        Event::Send => if s.socket {
            Command::Send(s.draft)
        } else {
            Command::Nothing
        },
        _ => Command::Nothing,
    }
}

/// The state of the chat component: connection, log of lines and draft.
pub struct Model {
    connection: Connection,
    socket: bool,
    messages: Vec<String>,
    input: String,
}

impl View for Model {
    type V = Session;

    closed spec fn view(&self) -> Session {
        Session {
            connection: self.connection,
            socket: self.socket,
            log: self.messages@.map_values(|m: String| m@),
            draft: self.input@,
        }
    }
}

impl Model {
    /// A fresh session, and the event that the component sends itself at
    /// mount to open the socket.
    pub fn create() -> (r: (Model, Msg))
        ensures
            r.0@ == initial(),
            r.1@ == Event::Connect,
    {
        let model = Model {
            connection: Connection::Disconnected,
            socket: false,
            messages: Vec::new(),
            input: String::new(),
        };
        assert(model@.log =~= Seq::<Seq<char>>::empty());
        (model, Msg::Connect)
    }

    /// Applies one event, and says what the transport has to do.
    pub fn update(&mut self, msg: Msg) -> (r: Effect)
        ensures
            final(self)@ == step(old(self)@, msg@),
            r@ == reaction(old(self)@, msg@),
    {
        let ghost before = self.messages@;
        match msg {
            Msg::Connect => {
                self.socket = true;
                Effect::Open
            },
            Msg::Connected => {
                self.connection = Connection::Connected;
                let line = "Connected".to_owned();
                self.messages.push(line);
                assert(self@.log =~= old(self)@.log.push(connected_line()));
                Effect::Nothing
            },
            Msg::Disconnected => {
                self.connection = Connection::Disconnected;
                let line = "Disconnected".to_owned();
                self.messages.push(line);
                self.socket = false;
                assert(self@.log =~= old(self)@.log.push(disconnected_line()));
                Effect::Release
            },
            Msg::UpdateInput(input) => {
                self.input = input;
                Effect::Nothing
            },
            Msg::Send => {
                let effect = if self.socket {
                    Effect::Send(Message::Text(self.input.clone()))
                } else {
                    Effect::Nothing
                };
                self.input = String::new();
                effect
            },
            Msg::Received(Ok(Message::Text(text))) => {
                let ghost t = text@;
                self.messages.push(text);
                assert(self@.log =~= old(self)@.log.push(t));
                Effect::Nothing
            },
            Msg::Received(Err(_)) => Effect::Nothing,
        }
    }
    /// The event that a key press in the input box raises: Enter sends the
    /// draft, any other key confirms the draft as it stands.
    pub fn on_key(&self, key: &str) -> (r: Msg)
        ensures
            key@ == "Enter"@ ==> r@ == Event::Send,
            key@ != "Enter"@ ==> r@ == Event::UpdateInput(self@.draft),
    {
        let pressed = key.to_owned();
        let enter = "Enter".to_owned();
        if pressed == enter {
            Msg::Send
        } else {
            Msg::UpdateInput(self.input.clone())
        }
    }

    /// The lines to show, oldest first.
    pub fn messages(&self) -> (r: &Vec<String>)
        ensures
            r@.map_values(|m: String| m@) == self@.log,
    {
        &self.messages
    }

    /// The text of the input box.
    pub fn input(&self) -> (r: &String)
        ensures
            r@ == self@.draft,
    {
        &self.input
    }

    /// Whether the transport has reported the socket open.
    pub fn connection(&self) -> (r: Connection)
        ensures
            r == self@.connection,
    {
        self.connection
    }

    /// Whether a socket handle is held, so that a send reaches the transport.
    pub fn holds_socket(&self) -> (r: bool)
        ensures
            r == self@.socket,
    {
        self.socket
    }
}

} // verus!
