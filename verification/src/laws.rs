//! What holds of the relay whatever the store holds and whatever the
//! platform answers.

use crate::command::{created, CreateBoardRequestView, UserFacingError};
use crate::delivery::{delivered, run, PlatformScriptView};
use crate::engine::{
    asked, course, mapping_for, next, qualifies, ActionView, MatchedView, Outcome, ReplyView,
    StateView, StepView,
};
use crate::model::{MessageHandle, ReactionEventView, StoreError, TransportError};
use crate::reaction_key::is_custom;
use crate::store::StoreView;
use vstd::prelude::*;

verus! {

/// Whether a message is sent among `actions`.
pub open spec fn sends_message(actions: Seq<ActionView>) -> bool {
    exists|i: int| 0 <= i < actions.len() && #[trigger] actions[i] is SendMessage
}

/// Whether a mapping is recorded among `actions`.
pub open spec fn records_mapping(actions: Seq<ActionView>) -> bool {
    exists|i: int| 0 <= i < actions.len() && #[trigger] actions[i] is InsertMapping
}

/// Whether a mapping is removed among `actions`.
pub open spec fn removes_mapping(actions: Seq<ActionView>) -> bool {
    exists|i: int| 0 <= i < actions.len() && #[trigger] actions[i] is DeleteMapping
}

/// Whether the event's reaction has a board, and the message fetched for it
/// carries enough reactions of that kind.
pub open spec fn reaches_threshold(
    store: StoreView,
    event: ReactionEventView,
    script: PlatformScriptView,
) -> bool {
    &&& store.find_board(event.guild_id, event.reaction_key) matches Some(board)
    &&& script.message matches Ok(snapshot)
    &&& qualifies(snapshot, board)
}

/// Whether `store` holds a board message for the event's source message on
/// the board of the event's reaction.
pub open spec fn is_posted(store: StoreView, event: ReactionEventView) -> bool {
    &&& store.find_board(event.guild_id, event.reaction_key) matches Some(board)
    &&& store.find_mapping(event.source_message_id, board.id) is Some
}

/// Every row of `before` is still a row of `after`.
pub open spec fn keeps_mappings(before: StoreView, after: StoreView) -> bool {
    forall|k: (u64, u64)| #[trigger]
        before.mappings.contains_key(k) ==> after.mappings.contains_key(k) && after.mappings[k]
            == before.mappings[k]
}

/// Whether two actions are of the same kind, whatever they are about.
pub open spec fn same_kind(a: ActionView, b: ActionView) -> bool {
    match a {
        ActionView::FindBoard { .. } => b is FindBoard,
        ActionView::GetMessage { .. } => b is GetMessage,
        ActionView::FindMapping { .. } => b is FindMapping,
        ActionView::ResolveNickname { .. } => b is ResolveNickname,
        ActionView::SendMessage { .. } => b is SendMessage,
        ActionView::InsertMapping { .. } => b is InsertMapping,
        ActionView::DeleteMessage { .. } => b is DeleteMessage,
        ActionView::DeleteMapping { .. } => b is DeleteMapping,
    }
}

/// For one event the engine asks for each kind of action at most once,
/// whoever answers it: at most one lookup of each sort, one send, one
/// recording, one deletion and one removal. It asks for seven actions at
/// most.
pub proof fn law_engine_asks_each_kind_once(event: ReactionEventView, replies: Seq<ReplyView>)
    ensures
        asked(event, replies).len() <= 7,
        forall|i: int, j: int|
            0 <= i < j < asked(event, replies).len() ==> !same_kind(
                #[trigger] asked(event, replies)[i],
                #[trigger] asked(event, replies)[j],
            ),
{
    reveal_with_fuel(course, 8);
}

/// The engine asks for a board message only at the threshold: whoever
/// answers it, it sends nothing unless it was given a board, a fetched
/// message with enough reactions of the board's kind, and no mapping.
pub proof fn law_engine_posts_only_at_threshold(event: ReactionEventView, replies: Seq<ReplyView>)
    requires
        sends_message(asked(event, replies)),
    ensures
        replies.len() >= 4,
        replies[0] matches ReplyView::Board(Some(board)) && replies[1] matches ReplyView::Message(
            Ok(snapshot),
        ) && qualifies(snapshot, board),
        replies[2] == ReplyView::Mapping(None),
{
    reveal_with_fuel(course, 8);
}

/// The engine takes nothing down for an added reaction: whoever answers it,
/// it asks for no mapping to be removed, and the only message it asks to
/// have deleted is the one whose handle it was given for its own send.
pub proof fn law_engine_never_unposts_for_added_reaction(
    event: ReactionEventView,
    replies: Seq<ReplyView>,
)
    requires
        !event.is_removal,
    ensures
        !removes_mapping(asked(event, replies)),
        forall|i: int|
            0 <= i < asked(event, replies).len() ==> (#[trigger] asked(
                event,
                replies,
            )[i] matches ActionView::DeleteMessage { channel_id, message_id } ==> replies.len() > 5
                && replies[4] == ReplyView::Sent(Ok(MessageHandle { channel_id, message_id }))
                && replies[5] matches ReplyView::MappingInserted(Err(_))),
{
    reveal_with_fuel(course, 8);
}

/// The engine removes a mapping only for a board message that is gone:
/// whoever answers it, it asks for that only after a removed reaction left
/// too few, a mapping was found, and the board message was deleted.
pub proof fn law_engine_forgets_only_deleted_messages(
    event: ReactionEventView,
    replies: Seq<ReplyView>,
)
    requires
        removes_mapping(asked(event, replies)),
    ensures
        event.is_removal,
        replies.len() >= 4,
        replies[0] matches ReplyView::Board(Some(board)) && replies[1] matches ReplyView::Message(
            Ok(snapshot),
        ) && !qualifies(snapshot, board),
        replies[2] matches ReplyView::Mapping(Some(_)),
        replies[3] matches ReplyView::MessageDeleted(Ok(_)),
{
    reveal_with_fuel(course, 8);
}

/// Handling an event writes mappings only: the boards stay as they are, and
/// a well-formed store stays well formed.
pub proof fn law_delivery_leaves_boards_alone(
    store: StoreView,
    event: ReactionEventView,
    script: PlatformScriptView,
)
    ensures
        delivered(store, event, script).store.boards == store.boards,
        delivered(store, event, script).store.next_id == store.next_id,
        store.wf() ==> delivered(store, event, script).store.wf(),
{
    reveal_with_fuel(run, 8);
}

/// One event leads to at most one board message: no delivery sends twice.
pub proof fn law_event_sends_at_most_once(
    store: StoreView,
    event: ReactionEventView,
    script: PlatformScriptView,
)
    ensures
        forall|i: int, j: int|
            0 <= i < j < delivered(store, event, script).actions.len() ==> !(#[trigger] delivered(
                store,
                event,
                script,
            ).actions[i] is SendMessage && #[trigger] delivered(store, event, script).actions[j]
                is SendMessage),
{
    reveal_with_fuel(run, 8);
}

/// A source message that has its board message gets no second one: while
/// the mapping is there, no event for it sends anything, and an event that
/// adds a reaction leaves the store as it is.
pub proof fn law_posted_message_is_not_posted_again(
    store: StoreView,
    event: ReactionEventView,
    script: PlatformScriptView,
)
    requires
        is_posted(store, event),
    ensures
        !sends_message(delivered(store, event, script).actions),
        !records_mapping(delivered(store, event, script).actions),
        !event.is_removal ==> delivered(store, event, script).store == store,
        reaches_threshold(store, event, script) ==> delivered(store, event, script).store == store
            && delivered(store, event, script).outcome == Outcome::AlreadyPosted(
            store.find_mapping(
                event.source_message_id,
                store.find_board(event.guild_id, event.reaction_key)->Some_0.id,
            )->Some_0,
        ),
{
    reveal_with_fuel(run, 8);
}

/// Idempotence: once an event has led to a board message, delivering it
/// again sends nothing, whatever the platform answers the second time; and
/// where the event adds a reaction, the store stays as the first delivery
/// left it.
pub proof fn law_repeated_event_posts_once(
    store: StoreView,
    event: ReactionEventView,
    first_script: PlatformScriptView,
    second_script: PlatformScriptView,
)
    requires
        delivered(store, event, first_script).outcome is Posted,
    ensures
        ({
            let once = delivered(store, event, first_script);
            let twice = delivered(once.store, event, second_script);
            &&& is_posted(once.store, event)
            &&& !sends_message(twice.actions)
            &&& !(twice.outcome is Posted)
            &&& !event.is_removal ==> twice.store == once.store
        }),
{
    reveal_with_fuel(run, 8);
    let once = delivered(store, event, first_script);
    law_posted_message_is_not_posted_again(once.store, event, second_script);
}

/// No premature post: unless the fetched message carries enough reactions
/// of a kind that has a board, nothing is sent and no mapping is recorded;
/// and where the event adds a reaction, the store is left as it is.
pub proof fn law_below_threshold_nothing_is_posted(
    store: StoreView,
    event: ReactionEventView,
    script: PlatformScriptView,
)
    requires
        !reaches_threshold(store, event, script),
    ensures
        !sends_message(delivered(store, event, script).actions),
        !records_mapping(delivered(store, event, script).actions),
        !(delivered(store, event, script).outcome is Posted),
        !event.is_removal ==> delivered(store, event, script).store == store,
{
    reveal_with_fuel(run, 8);
}

/// No flicker: an event that adds a reaction never takes a board message
/// down. It removes no mapping, every mapping of the store is still there
/// afterwards, and the only message it may delete is the one it has just
/// sent itself.
pub proof fn law_added_reaction_never_unposts(
    store: StoreView,
    event: ReactionEventView,
    script: PlatformScriptView,
)
    requires
        !event.is_removal,
    ensures
        !removes_mapping(delivered(store, event, script).actions),
        keeps_mappings(store, delivered(store, event, script).store),
        forall|i: int|
            0 <= i < delivered(store, event, script).actions.len() ==> (#[trigger] delivered(
                store,
                event,
                script,
            ).actions[i] matches ActionView::DeleteMessage { channel_id, message_id }
                ==> sends_message(delivered(store, event, script).actions) && script.sent == Ok::<
                MessageHandle,
                TransportError,
            >(MessageHandle { channel_id, message_id })),
{
    reveal_with_fuel(run, 8);
}

/// Round trip: once an event has led to a board message, an event that
/// removes a reaction of the same kind from the same message, and finds too
/// few of them left, takes the board message down: it deletes that very
/// message, and its mapping is gone from the store.
pub proof fn law_retraction_unposts(
    store: StoreView,
    event: ReactionEventView,
    script: PlatformScriptView,
)
    requires
        is_posted(store, event),
        event.is_removal,
        store.find_board(event.guild_id, event.reaction_key) matches Some(board)
            && script.message matches Ok(snapshot) && !qualifies(snapshot, board),
        script.deleted is Ok,
    ensures
        ({
            let board = store.find_board(event.guild_id, event.reaction_key)->Some_0;
            let mapping = store.find_mapping(event.source_message_id, board.id)->Some_0;
            let after = delivered(store, event, script);
            &&& after.outcome == Outcome::Unposted { mapping, row_removed: true }
            &&& after.actions.contains(
                ActionView::DeleteMessage {
                    channel_id: board.channel_id,
                    message_id: mapping.board_message_id,
                },
            )
            &&& after.store.boards == store.boards
            &&& after.store.mappings == store.mappings.remove(
                (event.source_message_id, board.id),
            )
            &&& !is_posted(after.store, event)
        }),
{
    reveal_with_fuel(run, 8);
    // The deletion is the fourth action: after the board, the message and
    // the mapping have been looked up.
    assert(delivered(store, event, script).actions[3] is DeleteMessage);
}

/// Conflict safety: where two handlers of the same source message have both
/// found no mapping and both sent a board message, the store lets exactly
/// one of them record its mapping. The other is told of the conflict,
/// deletes the message it sent, and ends without a mapping of its own,
/// whatever becomes of that deletion.
pub proof fn law_concurrent_posts_keep_one(
    store: StoreView,
    matched: MatchedView,
    winner: MessageHandle,
    loser: MessageHandle,
)
    requires
        store.find_mapping(matched.event.source_message_id, matched.board.id) is None,
    ensures
        ({
            let source = matched.event.source_message_id;
            let board = matched.board.id;
            let (once, first) = store.insert_mapping(source, winner.message_id, board);
            let (twice, second) = once.insert_mapping(source, loser.message_id, board);
            &&& first == Ok::<(), StoreError>(())
            &&& second == Err::<(), StoreError>(StoreError::Conflict)
            &&& twice == once
            &&& twice.find_mapping(source, board) == Some(mapping_for(matched, winner))
            &&& next(
                StateView::Recording { matched, handle: winner },
                ReplyView::MappingInserted(first),
            ) == StepView::Finished(Outcome::Posted(mapping_for(matched, winner)))
            &&& next(
                StateView::Recording { matched, handle: loser },
                ReplyView::MappingInserted(second),
            ) == (StepView::Continue {
                state: StateView::Retracting { matched, handle: loser, cause: StoreError::Conflict },
                action: ActionView::DeleteMessage {
                    channel_id: loser.channel_id,
                    message_id: loser.message_id,
                },
            })
            &&& forall|retraction: Result<(), TransportError>| #[trigger]
                next(
                    StateView::Retracting { matched, handle: loser, cause: StoreError::Conflict },
                    ReplyView::MessageDeleted(retraction),
                ) == StepView::Finished(
                    Outcome::RecordFailed { cause: StoreError::Conflict, retraction },
                )
        }),
{
}

/// A message that was sent is never left without a mapping unheeded: a
/// delivery that sends a message either records its mapping and ends as
/// posted, or goes on to delete that very message and reports the failure.
pub proof fn law_sent_message_is_recorded_or_retracted(
    store: StoreView,
    event: ReactionEventView,
    script: PlatformScriptView,
)
    requires
        sends_message(delivered(store, event, script).actions),
        script.sent is Ok,
    ensures
        ({
            let after = delivered(store, event, script);
            let handle = script.sent->Ok_0;
            let board = store.find_board(event.guild_id, event.reaction_key)->Some_0;
            ||| {
                &&& after.outcome is Posted
                &&& after.store.find_mapping(event.source_message_id, board.id) == Some(
                    after.outcome->Posted_0,
                )
                &&& after.outcome->Posted_0.board_message_id == handle.message_id
            }
            ||| {
                &&& after.outcome is RecordFailed
                &&& after.store == store
                &&& after.actions.contains(
                    ActionView::DeleteMessage {
                        channel_id: handle.channel_id,
                        message_id: handle.message_id,
                    },
                )
            }
        }),
{
    reveal_with_fuel(run, 8);
}

/// Validation: a request that is turned away writes no row. A custom
/// reaction is turned away as non-unicode, and a threshold below 1 is
/// turned away where the reaction itself is fine.
pub proof fn law_rejected_request_writes_nothing(
    store: StoreView,
    request: CreateBoardRequestView,
    listed: bool,
)
    ensures
        created(store, request, listed).1 is Err ==> created(store, request, listed).0 == store,
        is_custom(request.reaction_key_raw) ==> created(store, request, listed).1 == Err::<
            Seq<char>,
            UserFacingError,
        >(UserFacingError::NonUnicodeReaction),
        !is_custom(request.reaction_key_raw) && listed && request.threshold < 1 ==> created(
            store,
            request,
            listed,
        ).1 == Err::<Seq<char>, UserFacingError>(UserFacingError::ThresholdTooLow),
{
}

/// Creating a board keeps a well-formed store well formed, whatever is
/// asked for.
pub proof fn law_creation_keeps_store_well_formed(
    store: StoreView,
    request: CreateBoardRequestView,
    listed: bool,
)
    requires
        store.wf(),
    ensures
        created(store, request, listed).0.wf(),
{
}

/// Uniqueness: after a board was created for a guild and a reaction, a
/// second valid request for the same guild and reaction is told that the
/// board exists, and the store keeps the one row: it is left exactly as the
/// first creation left it, one row larger than before.
pub proof fn law_second_board_is_refused(
    store: StoreView,
    request: CreateBoardRequestView,
    again: CreateBoardRequestView,
    listed: bool,
)
    requires
        store.boards.dom().finite(),
        created(store, request, listed).1 is Ok,
        again.guild_id == request.guild_id,
        again.reaction_key_raw == request.reaction_key_raw,
        again.threshold >= 1,
    ensures
        ({
            let (once, _) = created(store, request, listed);
            let (twice, second) = created(once, again, listed);
            &&& second == Err::<Seq<char>, UserFacingError>(UserFacingError::BoardExists)
            &&& twice == once
            &&& once.boards.dom().len() == store.boards.dom().len() + 1
            &&& once.boards.contains_key((request.guild_id, request.reaction_key_raw))
            &&& once.boards.remove((request.guild_id, request.reaction_key_raw)) == store.boards
        }),
{
}

} // verus!
