//! Which board, if any, applies to a reaction in a guild.

use crate::model::Board;
use crate::reaction_key::ReactionKey;
use crate::store::{board_view, BoardStore};
use vstd::prelude::*;

verus! {

/// The read path from a guild and a reaction to the board that tracks it.
pub struct BoardRegistry {}

impl BoardRegistry {
    /// The board of `guild_id` keyed by `reaction_key`, as the store has it.
    pub fn resolve(store: &BoardStore, guild_id: u64, reaction_key: &ReactionKey) -> (found: Option<
        Board,
    >)
        requires
            store.wf(),
        ensures
            board_view(found) == store@.find_board(guild_id, reaction_key@),
    {
        store.find_board(guild_id, reaction_key)
    }
}

} // verus!
