//! Boards, mappings and what the platform reports: the plain data that the
//! store holds and the engine reads, each with its mathematical view.

use crate::reaction_key::ReactionKey;
use vstd::prelude::*;

verus! {

/// A store operation that did not go through.
#[derive(Clone, Copy, Debug, PartialEq, Eq, Structural)]
pub enum StoreError {
    /// A row with the same unique key is already there.
    Conflict,
    /// The store could not be reached or could not answer.
    Unavailable,
}

/// A call to the chat platform that failed.
#[derive(Clone, Copy, Debug, PartialEq, Eq, Structural)]
pub enum TransportError {
    /// The channel or message addressed does not exist (any more).
    NotFound,
    /// Any other failure of the call.
    Failed,
}

/// A board: reactions of one kind in one guild, mirrored into one channel
/// once a message has gathered `threshold` of them.
#[derive(Debug, PartialEq, Eq)]
pub struct Board {
    pub id: u64,
    pub guild_id: u64,
    pub channel_id: u64,
    pub reaction_key: ReactionKey,
    pub threshold: u64,
}

/// A board, with its key as a sequence of code points.
pub struct BoardView {
    pub id: u64,
    pub guild_id: u64,
    pub channel_id: u64,
    pub reaction_key: Seq<char>,
    pub threshold: u64,
}

impl View for Board {
    type V = BoardView;

    open spec fn view(&self) -> BoardView {
        BoardView {
            id: self.id,
            guild_id: self.guild_id,
            channel_id: self.channel_id,
            reaction_key: self.reaction_key@,
            threshold: self.threshold,
        }
    }
}

impl Clone for Board {
    fn clone(&self) -> (copy: Self)
        ensures
            copy@ == self@,
    {
        Board {
            id: self.id,
            guild_id: self.guild_id,
            channel_id: self.channel_id,
            reaction_key: self.reaction_key.clone(),
            threshold: self.threshold,
        }
    }
}

/// The link from a source message to its mirrored copy on one board.
#[derive(Clone, Copy, Debug, PartialEq, Eq, Structural)]
pub struct MessageMapping {
    pub source_message_id: u64,
    pub board_message_id: u64,
    pub board_id: u64,
}

/// A reaction was added to, or removed from, a message.
#[derive(Debug, PartialEq, Eq)]
pub struct ReactionEvent {
    pub guild_id: u64,
    pub source_message_id: u64,
    pub source_channel_id: u64,
    pub reaction_key: ReactionKey,
    pub is_removal: bool,
}

/// A reaction event, with its key as a sequence of code points.
pub struct ReactionEventView {
    pub guild_id: u64,
    pub source_message_id: u64,
    pub source_channel_id: u64,
    pub reaction_key: Seq<char>,
    pub is_removal: bool,
}

impl View for ReactionEvent {
    type V = ReactionEventView;

    open spec fn view(&self) -> ReactionEventView {
        ReactionEventView {
            guild_id: self.guild_id,
            source_message_id: self.source_message_id,
            source_channel_id: self.source_channel_id,
            reaction_key: self.reaction_key@,
            is_removal: self.is_removal,
        }
    }
}

impl Clone for ReactionEvent {
    fn clone(&self) -> (copy: Self)
        ensures
            copy@ == self@,
    {
        ReactionEvent {
            guild_id: self.guild_id,
            source_message_id: self.source_message_id,
            source_channel_id: self.source_channel_id,
            reaction_key: self.reaction_key.clone(),
            is_removal: self.is_removal,
        }
    }
}

impl ReactionEvent {
    /// The event that the platform reported with the raw reaction `raw`, or
    /// `None` where `raw` cannot key a board, so that no board tracks it.
    pub fn observe(
        guild_id: u64,
        source_message_id: u64,
        source_channel_id: u64,
        raw: &str,
        is_removal: bool,
    ) -> (event: Option<ReactionEvent>)
        ensures
            event is Some <==> crate::reaction_key::supported(raw@),
            event matches Some(e) ==> e@ == (ReactionEventView {
                guild_id,
                source_message_id,
                source_channel_id,
                reaction_key: raw@,
                is_removal,
            }),
    {
        match ReactionKey::from_raw(raw) {
            Ok(reaction_key) => Some(
                ReactionEvent {
                    guild_id,
                    source_message_id,
                    source_channel_id,
                    reaction_key,
                    is_removal,
                },
            ),
            Err(_) => None,
        }
    }
}

/// How many reactions of one kind a message carries, as the platform
/// reports it. The symbol is the platform's own rendering of the kind.
#[derive(Debug, PartialEq, Eq)]
pub struct ReactionCount {
    pub symbol: String,
    pub count: u64,
}

/// A reaction count, with its symbol as a sequence of code points.
pub struct ReactionCountView {
    pub symbol: Seq<char>,
    pub count: u64,
}

impl View for ReactionCount {
    type V = ReactionCountView;

    open spec fn view(&self) -> ReactionCountView {
        ReactionCountView { symbol: self.symbol@, count: self.count }
    }
}

impl Clone for ReactionCount {
    fn clone(&self) -> (copy: Self)
        ensures
            copy@ == self@,
    {
        ReactionCount { symbol: self.symbol.clone(), count: self.count }
    }
}

/// A message as fetched from the platform.
#[derive(Debug, PartialEq, Eq)]
pub struct MessageSnapshot {
    pub content: String,
    pub author_id: u64,
    pub author_tag: String,
    pub reactions: Vec<ReactionCount>,
}

/// A fetched message over sequences.
pub struct MessageSnapshotView {
    pub content: Seq<char>,
    pub author_id: u64,
    pub author_tag: Seq<char>,
    pub reactions: Seq<ReactionCountView>,
}

/// The views of `reactions`, in the same order.
pub open spec fn reaction_views(reactions: Seq<ReactionCount>) -> Seq<ReactionCountView> {
    Seq::new(reactions.len(), |i: int| reactions[i]@)
}

impl View for MessageSnapshot {
    type V = MessageSnapshotView;

    open spec fn view(&self) -> MessageSnapshotView {
        MessageSnapshotView {
            content: self.content@,
            author_id: self.author_id,
            author_tag: self.author_tag@,
            reactions: reaction_views(self.reactions@),
        }
    }
}

impl Clone for MessageSnapshot {
    fn clone(&self) -> (copy: Self)
        ensures
            copy@ == self@,
    {
        let mut reactions: Vec<ReactionCount> = Vec::new();
        let mut i: usize = 0;
        while i < self.reactions.len()
            invariant
                i <= self.reactions.len(),
                reactions.len() == i,
                forall|j: int| 0 <= j < i ==> reactions@[j]@ == self.reactions@[j]@,
            decreases self.reactions.len() - i,
        {
            reactions.push(self.reactions[i].clone());
            i = i + 1;
        }
        assert(reaction_views(reactions@) =~= reaction_views(self.reactions@));
        MessageSnapshot {
            content: self.content.clone(),
            author_id: self.author_id,
            author_tag: self.author_tag.clone(),
            reactions,
        }
    }
}

/// The count that `reactions` reports for `key`: that of the first entry
/// whose symbol has the key's code points, and 0 where there is none.
pub open spec fn reaction_count(reactions: Seq<ReactionCountView>, key: Seq<char>) -> u64
    decreases reactions.len(),
{
    if reactions.len() == 0 {
        0
    } else if reactions[0].symbol == key {
        reactions[0].count
    } else {
        reaction_count(reactions.drop_first(), key)
    }
}

impl MessageSnapshot {
    /// The current number of reactions of kind `key` on the message.
    pub fn count_of(&self, key: &ReactionKey) -> (count: u64)
        ensures
            count == reaction_count(self@.reactions, key@),
    {
        let ghost all = self@.reactions;
        let mut i: usize = 0;
        assert(all.skip(0) =~= all);
        while i < self.reactions.len()
            invariant
                i <= self.reactions.len(),
                all == reaction_views(self.reactions@),
                reaction_count(all, key@) == reaction_count(all.skip(i as int), key@),
            decreases self.reactions.len() - i,
        {
            let entry = &self.reactions[i];
            let ghost rest = all.skip(i as int);
            assert(rest.drop_first() =~= all.skip(i + 1));
            if key.names(&entry.symbol) {
                return entry.count;
            }
            i = i + 1;
        }
        0
    }
}

/// Where a message that was sent can be found again.
#[derive(Clone, Copy, Debug, PartialEq, Eq, Structural)]
pub struct MessageHandle {
    pub channel_id: u64,
    pub message_id: u64,
}

} // verus!
