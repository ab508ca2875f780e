//! An in-memory todo list: the items, the store that owns them, the command
//! grammar of the interactive session and the session's state machine.
//!
//! Every function here is verified against a mathematical model: an item is
//! seen as a [`todo::TodoView`], the store as a [`store::StoreModel`].

pub mod command;
pub mod laws;
pub mod session;
pub mod store;
pub mod style;
pub mod text;
pub mod todo;
