//! A card-authoring workflow for a flashcard knowledge base: creation
//! contexts that say why a card is being made, an interactive editor with
//! focus navigation, and submit-time resolution of topic inheritance and
//! graph edges, persisted atomically through SQLite.

pub mod card;
pub mod errors;
pub mod keys;
pub mod logic;
pub mod newchild;
pub mod prompt;
pub mod store;
pub mod textinput;
pub mod topics;
