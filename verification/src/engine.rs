//! The synchronization engine. It keeps no state between events: for one
//! reaction event it asks for one outside action at a time and decides on
//! the next from the reply, until the event is settled. Whoever drives it
//! performs the actions against the store and the platform.

use crate::model::{
    Board, BoardView, MessageHandle, MessageMapping, MessageSnapshot, MessageSnapshotView,
    ReactionEvent, ReactionEventView, StoreError, TransportError, reaction_count,
};
use crate::store::board_view;
use crate::text::{board_message_body, render_board_message, text_view};
use vstd::prelude::*;

verus! {

/// What the engine asks its driver to do next.
#[derive(Debug, PartialEq, Eq)]
pub enum Action {
    /// Store: look up the board of a guild and reaction.
    FindBoard { guild_id: u64, reaction_key: crate::reaction_key::ReactionKey },
    /// Platform: fetch a message with its current reactions.
    GetMessage { channel_id: u64, message_id: u64 },
    /// Store: look up the mapping of a source message on a board.
    FindMapping { source_message_id: u64, board_id: u64 },
    /// Platform: look up the nickname of a user in a guild.
    ResolveNickname { guild_id: u64, user_id: u64 },
    /// Platform: send a message to a channel.
    SendMessage { channel_id: u64, body: String },
    /// Store: record a mapping.
    InsertMapping { source_message_id: u64, board_message_id: u64, board_id: u64 },
    /// Platform: delete a message.
    DeleteMessage { channel_id: u64, message_id: u64 },
    /// Store: remove a mapping.
    DeleteMapping { source_message_id: u64, board_id: u64 },
}

/// An action over sequences.
pub enum ActionView {
    FindBoard { guild_id: u64, reaction_key: Seq<char> },
    GetMessage { channel_id: u64, message_id: u64 },
    FindMapping { source_message_id: u64, board_id: u64 },
    ResolveNickname { guild_id: u64, user_id: u64 },
    SendMessage { channel_id: u64, body: Seq<char> },
    InsertMapping { source_message_id: u64, board_message_id: u64, board_id: u64 },
    DeleteMessage { channel_id: u64, message_id: u64 },
    DeleteMapping { source_message_id: u64, board_id: u64 },
}

impl View for Action {
    type V = ActionView;

    open spec fn view(&self) -> ActionView {
        match *self {
            Action::FindBoard { guild_id, reaction_key } => ActionView::FindBoard {
                guild_id,
                reaction_key: reaction_key@,
            },
            Action::GetMessage { channel_id, message_id } => ActionView::GetMessage {
                channel_id,
                message_id,
            },
            Action::FindMapping { source_message_id, board_id } => ActionView::FindMapping {
                source_message_id,
                board_id,
            },
            Action::ResolveNickname { guild_id, user_id } => ActionView::ResolveNickname {
                guild_id,
                user_id,
            },
            Action::SendMessage { channel_id, body } => ActionView::SendMessage {
                channel_id,
                body: body@,
            },
            Action::InsertMapping {
                source_message_id,
                board_message_id,
                board_id,
            } => ActionView::InsertMapping { source_message_id, board_message_id, board_id },
            Action::DeleteMessage { channel_id, message_id } => ActionView::DeleteMessage {
                channel_id,
                message_id,
            },
            Action::DeleteMapping { source_message_id, board_id } => ActionView::DeleteMapping {
                source_message_id,
                board_id,
            },
        }
    }
}

/// What came back from the action that the engine asked for.
#[derive(Debug, PartialEq, Eq)]
pub enum Reply {
    Board(Option<Board>),
    Message(Result<MessageSnapshot, TransportError>),
    Mapping(Option<MessageMapping>),
    Nickname(Option<String>),
    Sent(Result<MessageHandle, TransportError>),
    MappingInserted(Result<(), StoreError>),
    MessageDeleted(Result<(), TransportError>),
    MappingDeleted(Result<bool, StoreError>),
}

/// A reply over sequences.
pub enum ReplyView {
    Board(Option<BoardView>),
    Message(Result<MessageSnapshotView, TransportError>),
    Mapping(Option<MessageMapping>),
    Nickname(Option<Seq<char>>),
    Sent(Result<MessageHandle, TransportError>),
    MappingInserted(Result<(), StoreError>),
    MessageDeleted(Result<(), TransportError>),
    MappingDeleted(Result<bool, StoreError>),
}

/// The view of a fetched message, or the failure of the fetch.
pub open spec fn fetched_view(r: Result<MessageSnapshot, TransportError>) -> Result<
    MessageSnapshotView,
    TransportError,
> {
    match r {
        Ok(snapshot) => Ok(snapshot@),
        Err(e) => Err(e),
    }
}

impl View for Reply {
    type V = ReplyView;

    open spec fn view(&self) -> ReplyView {
        match *self {
            Reply::Board(found) => ReplyView::Board(board_view(found)),
            Reply::Message(fetched) => ReplyView::Message(fetched_view(fetched)),
            Reply::Mapping(found) => ReplyView::Mapping(found),
            Reply::Nickname(nickname) => ReplyView::Nickname(text_view(nickname)),
            Reply::Sent(sent) => ReplyView::Sent(sent),
            Reply::MappingInserted(inserted) => ReplyView::MappingInserted(inserted),
            Reply::MessageDeleted(deleted) => ReplyView::MessageDeleted(deleted),
            Reply::MappingDeleted(deleted) => ReplyView::MappingDeleted(deleted),
        }
    }
}

/// How an event was settled.
#[derive(Clone, Copy, Debug, PartialEq, Eq)]
pub enum Outcome {
    /// No board tracks the reaction: nothing to do.
    Untracked,
    /// The source message could not be fetched: nothing to mirror.
    SourceUnavailable(TransportError),
    /// Too few reactions, and the event added one: nothing to do.
    BelowThreshold,
    /// Enough reactions, and the board message is there already.
    AlreadyPosted(MessageMapping),
    /// Too few reactions after a removal, and no board message to take down.
    NeverPosted,
    /// A board message was sent and its mapping recorded.
    Posted(MessageMapping),
    /// The board message could not be sent.
    SendFailed(TransportError),
    /// The board message was sent, but its mapping could not be recorded;
    /// `retraction` tells how deleting the message again went.
    RecordFailed { cause: StoreError, retraction: Result<(), TransportError> },
    /// The board message was deleted and its mapping removed; `row_removed`
    /// is false where the row was gone already.
    Unposted { mapping: MessageMapping, row_removed: bool },
    /// The board message could not be deleted; its mapping stays.
    RemovalFailed { mapping: MessageMapping, error: TransportError },
    /// The board message was deleted, but its mapping could not be removed:
    /// the mapping is stale and has to be reconciled.
    StaleMapping { mapping: MessageMapping, cause: StoreError },
    /// The reply does not answer the action that was asked for.
    OutOfTurn,
}

/// The event being handled and the board that tracks its reaction.
#[derive(Debug, PartialEq, Eq)]
pub struct Matched {
    pub event: ReactionEvent,
    pub board: Board,
}

/// A matched event over sequences.
pub struct MatchedView {
    pub event: ReactionEventView,
    pub board: BoardView,
}

impl View for Matched {
    type V = MatchedView;

    open spec fn view(&self) -> MatchedView {
        MatchedView { event: self.event@, board: self.board@ }
    }
}

/// Where the handling of one event stands: which reply is awaited.
#[derive(Debug, PartialEq, Eq)]
pub enum State {
    /// Awaiting the board of the event's guild and reaction.
    ResolvingBoard { event: ReactionEvent },
    /// Awaiting the source message.
    FetchingMessage { matched: Matched },
    /// Awaiting the mapping; `qualifies` tells whether the count reached the
    /// threshold.
    CheckingMapping { matched: Matched, snapshot: MessageSnapshot, qualifies: bool },
    /// Awaiting the author's nickname, to post.
    ResolvingNickname { matched: Matched, snapshot: MessageSnapshot },
    /// Awaiting the handle of the board message.
    Sending { matched: Matched },
    /// Awaiting the recording of the mapping of the message just sent.
    Recording { matched: Matched, handle: MessageHandle },
    /// Awaiting the deletion of the message just sent, whose mapping could
    /// not be recorded.
    Retracting { matched: Matched, handle: MessageHandle, cause: StoreError },
    /// Awaiting the deletion of the board message, to unpost.
    Removing { matched: Matched, mapping: MessageMapping },
    /// Awaiting the removal of the mapping of the deleted board message.
    Forgetting { matched: Matched, mapping: MessageMapping },
}

/// A state over sequences.
pub enum StateView {
    ResolvingBoard { event: ReactionEventView },
    FetchingMessage { matched: MatchedView },
    CheckingMapping { matched: MatchedView, snapshot: MessageSnapshotView, qualifies: bool },
    ResolvingNickname { matched: MatchedView, snapshot: MessageSnapshotView },
    Sending { matched: MatchedView },
    Recording { matched: MatchedView, handle: MessageHandle },
    Retracting { matched: MatchedView, handle: MessageHandle, cause: StoreError },
    Removing { matched: MatchedView, mapping: MessageMapping },
    Forgetting { matched: MatchedView, mapping: MessageMapping },
}

impl View for State {
    type V = StateView;

    open spec fn view(&self) -> StateView {
        match *self {
            State::ResolvingBoard { event } => StateView::ResolvingBoard { event: event@ },
            State::FetchingMessage { matched } => StateView::FetchingMessage { matched: matched@ },
            State::CheckingMapping { matched, snapshot, qualifies } => StateView::CheckingMapping {
                matched: matched@,
                snapshot: snapshot@,
                qualifies,
            },
            State::ResolvingNickname { matched, snapshot } => StateView::ResolvingNickname {
                matched: matched@,
                snapshot: snapshot@,
            },
            State::Sending { matched } => StateView::Sending { matched: matched@ },
            State::Recording { matched, handle } => StateView::Recording {
                matched: matched@,
                handle,
            },
            State::Retracting { matched, handle, cause } => StateView::Retracting {
                matched: matched@,
                handle,
                cause,
            },
            State::Removing { matched, mapping } => StateView::Removing {
                matched: matched@,
                mapping,
            },
            State::Forgetting { matched, mapping } => StateView::Forgetting {
                matched: matched@,
                mapping,
            },
        }
    }
}

/// What the engine decided: another action, or the end of the event.
#[derive(Debug, PartialEq, Eq)]
pub enum Step {
    Continue { state: State, action: Action },
    Finished(Outcome),
}

/// A step over sequences.
pub enum StepView {
    Continue { state: StateView, action: ActionView },
    Finished(Outcome),
}

impl View for Step {
    type V = StepView;

    open spec fn view(&self) -> StepView {
        match *self {
            Step::Continue { state, action } => StepView::Continue {
                state: state@,
                action: action@,
            },
            Step::Finished(outcome) => StepView::Finished(outcome),
        }
    }
}

/// Whether the message carries enough reactions of the board's kind.
pub open spec fn qualifies(snapshot: MessageSnapshotView, board: BoardView) -> bool {
    reaction_count(snapshot.reactions, board.reaction_key) >= board.threshold
}

/// The mapping that posting `handle` for the matched event records.
pub open spec fn mapping_for(matched: MatchedView, handle: MessageHandle) -> MessageMapping {
    MessageMapping {
        source_message_id: matched.event.source_message_id,
        board_message_id: handle.message_id,
        board_id: matched.board.id,
    }
}

/// How the handling of `event` starts: by looking up its board.
pub open spec fn first(event: ReactionEventView) -> (StateView, ActionView) {
    (
        StateView::ResolvingBoard { event },
        ActionView::FindBoard { guild_id: event.guild_id, reaction_key: event.reaction_key },
    )
}

/// The step after the board lookup.
pub open spec fn after_board(event: ReactionEventView, found: Option<BoardView>) -> StepView {
    match found {
        None => StepView::Finished(Outcome::Untracked),
        Some(board) => StepView::Continue {
            state: StateView::FetchingMessage { matched: MatchedView { event, board } },
            action: ActionView::GetMessage {
                channel_id: event.source_channel_id,
                message_id: event.source_message_id,
            },
        },
    }
}

/// The step after the fetch of the source message. The mapping matters
/// where the message qualifies, or where a reaction was removed.
pub open spec fn after_message(
    matched: MatchedView,
    fetched: Result<MessageSnapshotView, TransportError>,
) -> StepView {
    match fetched {
        Err(error) => StepView::Finished(Outcome::SourceUnavailable(error)),
        Ok(snapshot) => {
            let enough = qualifies(snapshot, matched.board);
            if enough || matched.event.is_removal {
                StepView::Continue {
                    state: StateView::CheckingMapping { matched, snapshot, qualifies: enough },
                    action: ActionView::FindMapping {
                        source_message_id: matched.event.source_message_id,
                        board_id: matched.board.id,
                    },
                }
            } else {
                StepView::Finished(Outcome::BelowThreshold)
            }
        },
    }
}

/// The step after the mapping lookup: post where the message qualifies and
/// has no board message, unpost where it does not qualify and has one.
pub open spec fn after_mapping(
    matched: MatchedView,
    snapshot: MessageSnapshotView,
    enough: bool,
    found: Option<MessageMapping>,
) -> StepView {
    match found {
        None => if enough {
            StepView::Continue {
                state: StateView::ResolvingNickname { matched, snapshot },
                action: ActionView::ResolveNickname {
                    guild_id: matched.event.guild_id,
                    user_id: snapshot.author_id,
                },
            }
        } else {
            StepView::Finished(Outcome::NeverPosted)
        },
        Some(mapping) => if enough {
            StepView::Finished(Outcome::AlreadyPosted(mapping))
        } else {
            StepView::Continue {
                state: StateView::Removing { matched, mapping },
                action: ActionView::DeleteMessage {
                    channel_id: matched.board.channel_id,
                    message_id: mapping.board_message_id,
                },
            }
        },
    }
}

/// The step after the nickname lookup: send the board message.
pub open spec fn after_nickname(
    matched: MatchedView,
    snapshot: MessageSnapshotView,
    nickname: Option<Seq<char>>,
) -> StepView {
    StepView::Continue {
        state: StateView::Sending { matched },
        action: ActionView::SendMessage {
            channel_id: matched.board.channel_id,
            body: board_message_body(snapshot.content, snapshot.author_tag, nickname),
        },
    }
}

/// The step after the send: record the mapping of what was sent.
pub open spec fn after_send(matched: MatchedView, sent: Result<MessageHandle, TransportError>)
    -> StepView {
    match sent {
        Err(error) => StepView::Finished(Outcome::SendFailed(error)),
        Ok(handle) => StepView::Continue {
            state: StateView::Recording { matched, handle },
            action: ActionView::InsertMapping {
                source_message_id: matched.event.source_message_id,
                board_message_id: handle.message_id,
                board_id: matched.board.id,
            },
        },
    }
}

/// The step after the recording: where it failed, the message just sent is
/// deleted again, so that it is not left without a mapping.
pub open spec fn after_record(
    matched: MatchedView,
    handle: MessageHandle,
    inserted: Result<(), StoreError>,
) -> StepView {
    match inserted {
        Ok(_) => StepView::Finished(Outcome::Posted(mapping_for(matched, handle))),
        Err(cause) => StepView::Continue {
            state: StateView::Retracting { matched, handle, cause },
            action: ActionView::DeleteMessage {
                channel_id: handle.channel_id,
                message_id: handle.message_id,
            },
        },
    }
}

/// The step after the deletion of the board message: where it failed, the
/// mapping stays, as the only record of the message.
pub open spec fn after_removal(
    matched: MatchedView,
    mapping: MessageMapping,
    deleted: Result<(), TransportError>,
) -> StepView {
    match deleted {
        Err(error) => StepView::Finished(Outcome::RemovalFailed { mapping, error }),
        Ok(_) => StepView::Continue {
            state: StateView::Forgetting { matched, mapping },
            action: ActionView::DeleteMapping {
                source_message_id: matched.event.source_message_id,
                board_id: matched.board.id,
            },
        },
    }
}

/// How the event ends after the removal of the mapping.
pub open spec fn after_forget(mapping: MessageMapping, deleted: Result<bool, StoreError>)
    -> StepView {
    match deleted {
        Ok(row_removed) => StepView::Finished(Outcome::Unposted { mapping, row_removed }),
        Err(cause) => StepView::Finished(Outcome::StaleMapping { mapping, cause }),
    }
}

/// The transition function: the step that `reply` leads to from `state`. A
/// reply that does not answer the state's action ends the event.
pub open spec fn next(state: StateView, reply: ReplyView) -> StepView {
    match (state, reply) {
        (StateView::ResolvingBoard { event }, ReplyView::Board(found)) => after_board(event, found),
        (StateView::FetchingMessage { matched }, ReplyView::Message(fetched)) => after_message(
            matched,
            fetched,
        ),
        (
            StateView::CheckingMapping { matched, snapshot, qualifies },
            ReplyView::Mapping(found),
        ) => after_mapping(matched, snapshot, qualifies, found),
        (
            StateView::ResolvingNickname { matched, snapshot },
            ReplyView::Nickname(nickname),
        ) => after_nickname(matched, snapshot, nickname),
        (StateView::Sending { matched }, ReplyView::Sent(sent)) => after_send(matched, sent),
        (
            StateView::Recording { matched, handle },
            ReplyView::MappingInserted(inserted),
        ) => after_record(matched, handle, inserted),
        (
            StateView::Retracting { matched, handle, cause },
            ReplyView::MessageDeleted(retraction),
        ) => StepView::Finished(Outcome::RecordFailed { cause, retraction }),
        (
            StateView::Removing { matched, mapping },
            ReplyView::MessageDeleted(deleted),
        ) => after_removal(matched, mapping, deleted),
        (
            StateView::Forgetting { matched, mapping },
            ReplyView::MappingDeleted(deleted),
        ) => after_forget(mapping, deleted),
        _ => StepView::Finished(Outcome::OutOfTurn),
    }
}

/// How many actions a state can still be followed by, at most.
pub open spec fn steps_left(state: StateView) -> nat {
    match state {
        StateView::ResolvingBoard { .. } => 7,
        StateView::FetchingMessage { .. } => 6,
        StateView::CheckingMapping { .. } => 5,
        StateView::ResolvingNickname { .. } => 4,
        StateView::Sending { .. } => 3,
        StateView::Recording { .. } => 2,
        StateView::Removing { .. } => 2,
        StateView::Retracting { .. } => 1,
        StateView::Forgetting { .. } => 1,
    }
}

/// Every step takes the engine closer to the end.
pub proof fn lemma_next_descends(state: StateView, reply: ReplyView)
    ensures
        next(state, reply) matches StepView::Continue { state: then, .. } ==> steps_left(then)
            < steps_left(state),
{
}

/// The actions that the engine asks for, in order, from `state` with
/// `action` pending, as the replies come in one after the other: whoever
/// answers, and whatever the answers are.
pub open spec fn course(state: StateView, action: ActionView, replies: Seq<ReplyView>) -> Seq<
    ActionView,
>
    decreases steps_left(state),
{
    if replies.len() == 0 {
        seq![action]
    } else {
        match next(state, replies[0]) {
            StepView::Finished(_) => seq![action],
            StepView::Continue { state: then, action: following } => seq![action] + course(
                then,
                following,
                replies.drop_first(),
            ),
        }
    }
}

/// The actions that the engine asks for while it handles `event`.
pub open spec fn asked(event: ReactionEventView, replies: Seq<ReplyView>) -> Seq<ActionView> {
    course(first(event).0, first(event).1, replies)
}

/// The reaction-to-board synchronization engine.
pub struct BoardSyncEngine {}

impl BoardSyncEngine {
    /// Takes up `event`: the first state, and the action to perform for it.
    pub fn begin(event: ReactionEvent) -> (start: (State, Action))
        ensures
            (start.0@, start.1@) == first(event@),
    {
        let action = Action::FindBoard {
            guild_id: event.guild_id,
            reaction_key: event.reaction_key.clone(),
        };
        (State::ResolvingBoard { event }, action)
    }

    /// Decides on the next step from the reply to the action that `state`
    /// awaits.
    pub fn advance(state: State, reply: Reply) -> (step: Step)
        ensures
            step@ == next(state@, reply@),
    {
        match state {
            State::ResolvingBoard { event } => match reply {
                Reply::Board(Some(board)) => {
                    let action = Action::GetMessage {
                        channel_id: event.source_channel_id,
                        message_id: event.source_message_id,
                    };
                    Step::Continue {
                        state: State::FetchingMessage { matched: Matched { event, board } },
                        action,
                    }
                },
                Reply::Board(None) => Step::Finished(Outcome::Untracked),
                _ => Step::Finished(Outcome::OutOfTurn),
            },
            State::FetchingMessage { matched } => match reply {
                Reply::Message(Ok(snapshot)) => {
                    let count = snapshot.count_of(&matched.board.reaction_key);
                    let enough = count >= matched.board.threshold;
                    if enough || matched.event.is_removal {
                        let action = Action::FindMapping {
                            source_message_id: matched.event.source_message_id,
                            board_id: matched.board.id,
                        };
                        Step::Continue {
                            state: State::CheckingMapping { matched, snapshot, qualifies: enough },
                            action,
                        }
                    } else {
                        Step::Finished(Outcome::BelowThreshold)
                    }
                },
                Reply::Message(Err(error)) => Step::Finished(Outcome::SourceUnavailable(error)),
                _ => Step::Finished(Outcome::OutOfTurn),
            },
            State::CheckingMapping { matched, snapshot, qualifies } => match reply {
                Reply::Mapping(None) => {
                    if qualifies {
                        let action = Action::ResolveNickname {
                            guild_id: matched.event.guild_id,
                            user_id: snapshot.author_id,
                        };
                        Step::Continue {
                            state: State::ResolvingNickname { matched, snapshot },
                            action,
                        }
                    } else {
                        Step::Finished(Outcome::NeverPosted)
                    }
                },
                Reply::Mapping(Some(mapping)) => {
                    if qualifies {
                        Step::Finished(Outcome::AlreadyPosted(mapping))
                    } else {
                        let action = Action::DeleteMessage {
                            channel_id: matched.board.channel_id,
                            message_id: mapping.board_message_id,
                        };
                        Step::Continue { state: State::Removing { matched, mapping }, action }
                    }
                },
                _ => Step::Finished(Outcome::OutOfTurn),
            },
            State::ResolvingNickname { matched, snapshot } => match reply {
                Reply::Nickname(nickname) => {
                    let body = render_board_message(
                        snapshot.content.as_str(),
                        snapshot.author_tag.as_str(),
                        &nickname,
                    );
                    let action = Action::SendMessage {
                        channel_id: matched.board.channel_id,
                        body,
                    };
                    Step::Continue { state: State::Sending { matched }, action }
                },
                _ => Step::Finished(Outcome::OutOfTurn),
            },
            State::Sending { matched } => match reply {
                Reply::Sent(Ok(handle)) => {
                    let action = Action::InsertMapping {
                        source_message_id: matched.event.source_message_id,
                        board_message_id: handle.message_id,
                        board_id: matched.board.id,
                    };
                    Step::Continue { state: State::Recording { matched, handle }, action }
                },
                Reply::Sent(Err(error)) => Step::Finished(Outcome::SendFailed(error)),
                _ => Step::Finished(Outcome::OutOfTurn),
            },
            State::Recording { matched, handle } => match reply {
                Reply::MappingInserted(Ok(_)) => {
                    Step::Finished(
                        Outcome::Posted(
                            MessageMapping {
                                source_message_id: matched.event.source_message_id,
                                board_message_id: handle.message_id,
                                board_id: matched.board.id,
                            },
                        ),
                    )
                },
                Reply::MappingInserted(Err(cause)) => {
                    let action = Action::DeleteMessage {
                        channel_id: handle.channel_id,
                        message_id: handle.message_id,
                    };
                    Step::Continue { state: State::Retracting { matched, handle, cause }, action }
                },
                _ => Step::Finished(Outcome::OutOfTurn),
            },
            State::Retracting { matched, handle, cause } => match reply {
                Reply::MessageDeleted(retraction) => Step::Finished(
                    Outcome::RecordFailed { cause, retraction },
                ),
                _ => Step::Finished(Outcome::OutOfTurn),
            },
            State::Removing { matched, mapping } => match reply {
                Reply::MessageDeleted(Ok(_)) => {
                    let action = Action::DeleteMapping {
                        source_message_id: matched.event.source_message_id,
                        board_id: matched.board.id,
                    };
                    Step::Continue { state: State::Forgetting { matched, mapping }, action }
                },
                Reply::MessageDeleted(Err(error)) => Step::Finished(
                    Outcome::RemovalFailed { mapping, error },
                ),
                _ => Step::Finished(Outcome::OutOfTurn),
            },
            State::Forgetting { matched, mapping } => match reply {
                Reply::MappingDeleted(Ok(row_removed)) => Step::Finished(
                    Outcome::Unposted { mapping, row_removed },
                ),
                Reply::MappingDeleted(Err(cause)) => Step::Finished(
                    Outcome::StaleMapping { mapping, cause },
                ),
                _ => Step::Finished(Outcome::OutOfTurn),
            },
        }
    }
}

} // verus!
