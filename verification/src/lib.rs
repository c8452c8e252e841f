//! The rules of a Skull table: players join a lobby, place cards, bid on how many cards they
//! can turn over, and flip until they meet their bid or hit the red card.
//!
//! [`handle::handle_message`] answers one message of one client. [`rules`] says what each
//! message does, [`outcomes`] and [`tables`] what that comes to field by field, and [`laws`] what
//! holds across messages.

pub mod handle;
pub mod laws;
pub mod message;
pub mod names;
pub mod outcomes;
pub mod peers;
pub mod player;
mod random;
pub mod rounds;
pub mod rules;
pub mod state;
pub mod tables;
