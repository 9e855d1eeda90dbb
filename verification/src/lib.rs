//! A starboard-style relay: messages that gather enough reactions of a
//! configured kind are mirrored into a board channel, and the mirrored copy
//! is removed again once the reactions are retracted.
//!
//! The library decides and never waits. [`engine`] turns one reaction event
//! into a sequence of actions on the store and the platform, one reply at a
//! time; [`command`] validates the creation of a board and words the reply.
//! [`store`] holds the two tables with their uniqueness constraints in
//! memory, [`delivery`] runs the engine against it, and [`laws`] states what
//! follows for every store and every answer of the platform.

pub mod command;
pub mod delivery;
pub mod engine;
pub mod laws;
pub mod model;
pub mod reaction_key;
pub mod registry;
pub mod store;
pub mod text;
