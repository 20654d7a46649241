//! The decks. One module per deck; each exposes its `CARDS` and a `deck()`.

pub mod absurd;
pub mod dramatis;
pub mod memento;
pub mod stuck;
