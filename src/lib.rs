//! A chat session controller: a deterministic reducer from the current
//! session and one UI or transport event to the next session and the one
//! command that the transport has to carry out.

mod message;
mod session;
pub mod laws;

pub use message::{Event, Message, Msg};
pub use session::{
    connected_line, disconnected_line, initial, reaction, step, Command, Connection, Effect, Model,
    Session,
};
