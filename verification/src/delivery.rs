//! Handling one event from start to finish against the in-memory store,
//! with the platform's answers given beforehand. This is the loop that a
//! driver runs, with nothing left outside.

use crate::engine::{
    fetched_view, first, lemma_next_descends, next, steps_left, Action, ActionView,
    BoardSyncEngine, Outcome, Reply, ReplyView, StateView, Step, StepView,
};
use crate::model::{
    MessageHandle, MessageSnapshot, MessageSnapshotView, ReactionEvent, ReactionEventView,
    TransportError,
};
use crate::registry::BoardRegistry;
use crate::store::{BoardStore, StoreView};
use crate::text::text_view;
use vstd::prelude::*;

verus! {

/// What the platform answers while one event is handled. Each kind of call
/// is made at most once per event.
#[derive(Debug, PartialEq, Eq)]
pub struct PlatformScript {
    /// The answer to the fetch of the source message.
    pub message: Result<MessageSnapshot, TransportError>,
    /// The answer to the nickname lookup.
    pub nickname: Option<String>,
    /// The answer to the sending of the board message.
    pub sent: Result<MessageHandle, TransportError>,
    /// The answer to the deletion of a message.
    pub deleted: Result<(), TransportError>,
}

/// A script over sequences.
pub struct PlatformScriptView {
    pub message: Result<MessageSnapshotView, TransportError>,
    pub nickname: Option<Seq<char>>,
    pub sent: Result<MessageHandle, TransportError>,
    pub deleted: Result<(), TransportError>,
}

impl View for PlatformScript {
    type V = PlatformScriptView;

    open spec fn view(&self) -> PlatformScriptView {
        PlatformScriptView {
            message: fetched_view(self.message),
            nickname: text_view(self.nickname),
            sent: self.sent,
            deleted: self.deleted,
        }
    }
}

/// How one event went: the actions performed, in order, and the outcome.
#[derive(Debug, PartialEq, Eq)]
pub struct Delivery {
    pub actions: Vec<Action>,
    pub outcome: Outcome,
}

/// A delivery over sequences, with the store it left behind.
pub struct DeliveryView {
    pub store: StoreView,
    pub actions: Seq<ActionView>,
    pub outcome: Outcome,
}

/// The views of `actions`, in the same order.
pub open spec fn action_views(actions: Seq<Action>) -> Seq<ActionView> {
    Seq::new(actions.len(), |i: int| actions[i]@)
}

/// The reply to `action`: the store answers for itself and changes as it
/// does, the platform answers from the script.
pub open spec fn answered(store: StoreView, action: ActionView, script: PlatformScriptView) -> (
    StoreView,
    ReplyView,
) {
    match action {
        ActionView::FindBoard { guild_id, reaction_key } => (
            store,
            ReplyView::Board(store.find_board(guild_id, reaction_key)),
        ),
        ActionView::GetMessage { channel_id, message_id } => (
            store,
            ReplyView::Message(script.message),
        ),
        ActionView::FindMapping { source_message_id, board_id } => (
            store,
            ReplyView::Mapping(store.find_mapping(source_message_id, board_id)),
        ),
        ActionView::ResolveNickname { guild_id, user_id } => (
            store,
            ReplyView::Nickname(script.nickname),
        ),
        ActionView::SendMessage { channel_id, body } => (store, ReplyView::Sent(script.sent)),
        ActionView::InsertMapping { source_message_id, board_message_id, board_id } => {
            let (after, inserted) = store.insert_mapping(
                source_message_id,
                board_message_id,
                board_id,
            );
            (after, ReplyView::MappingInserted(inserted))
        },
        ActionView::DeleteMessage { channel_id, message_id } => (
            store,
            ReplyView::MessageDeleted(script.deleted),
        ),
        ActionView::DeleteMapping { source_message_id, board_id } => {
            let (after, deleted) = store.delete_mapping(source_message_id, board_id);
            (after, ReplyView::MappingDeleted(deleted))
        },
    }
}

/// Performs `action` for `state` and goes on from the reply until the
/// engine is finished.
pub open spec fn run(
    store: StoreView,
    state: StateView,
    action: ActionView,
    script: PlatformScriptView,
) -> DeliveryView
    decreases steps_left(state),
{
    let (after, reply) = answered(store, action, script);
    match next(state, reply) {
        StepView::Finished(outcome) => DeliveryView {
            store: after,
            actions: seq![action],
            outcome,
        },
        StepView::Continue { state: then, action: following } => {
            let rest = run(after, then, following, script);
            DeliveryView {
                store: rest.store,
                actions: seq![action] + rest.actions,
                outcome: rest.outcome,
            }
        },
    }
}

/// Handling `event` on `store` with the platform answering from `script`.
pub open spec fn delivered(store: StoreView, event: ReactionEventView, script: PlatformScriptView)
    -> DeliveryView {
    let (state, action) = first(event);
    run(store, state, action, script)
}

/// Answers `action`: from the store, which changes as it does, or from the
/// script.
pub fn answer(store: &mut BoardStore, action: &Action, script: &PlatformScript) -> (reply: Reply)
    requires
        old(store).wf(),
    ensures
        final(store).wf(),
        (final(store)@, reply@) == answered(old(store)@, action@, script@),
{
    match action {
        Action::FindBoard { guild_id, reaction_key } => Reply::Board(
            BoardRegistry::resolve(store, *guild_id, reaction_key),
        ),
        Action::GetMessage { .. } => Reply::Message(
            match &script.message {
                Ok(snapshot) => Ok(snapshot.clone()),
                Err(e) => Err(*e),
            },
        ),
        Action::FindMapping { source_message_id, board_id } => Reply::Mapping(
            store.find_mapping(*source_message_id, *board_id),
        ),
        Action::ResolveNickname { .. } => Reply::Nickname(
            match &script.nickname {
                Some(nickname) => Some(nickname.clone()),
                None => None,
            },
        ),
        Action::SendMessage { .. } => Reply::Sent(script.sent),
        Action::InsertMapping {
            source_message_id,
            board_message_id,
            board_id,
        } => Reply::MappingInserted(
            store.insert_mapping(*source_message_id, *board_message_id, *board_id),
        ),
        Action::DeleteMessage { .. } => Reply::MessageDeleted(script.deleted),
        Action::DeleteMapping { source_message_id, board_id } => Reply::MappingDeleted(
            store.delete_mapping(*source_message_id, *board_id),
        ),
    }
}

/// Handles `event` on `store` from start to finish, with the platform
/// answering from `script`.
pub fn deliver(store: &mut BoardStore, event: ReactionEvent, script: &PlatformScript) -> (delivery:
    Delivery)
    requires
        old(store).wf(),
    ensures
        final(store).wf(),
        delivered(old(store)@, event@, script@) == (DeliveryView {
            store: final(store)@,
            actions: action_views(delivery.actions@),
            outcome: delivery.outcome,
        }),
{
    let ghost whole = delivered(store@, event@, script@);
    let (first_state, first_action) = BoardSyncEngine::begin(event);
    let mut state = first_state;
    let mut action = first_action;
    let mut actions: Vec<Action> = Vec::new();
    loop
        invariant
            store.wf(),
            whole == delivered(old(store)@, event@, script@),
            whole.store == run(store@, state@, action@, script@).store,
            whole.outcome == run(store@, state@, action@, script@).outcome,
            whole.actions == action_views(actions@) + run(
                store@,
                state@,
                action@,
                script@,
            ).actions,
        decreases steps_left(state@),
    {
        let ghost here = state@;
        let reply = answer(store, &action, script);
        actions.push(action);
        proof {
            lemma_next_descends(here, reply@);
        }
        match BoardSyncEngine::advance(state, reply) {
            Step::Finished(outcome) => {
                assert(whole.actions =~= action_views(actions@));
                return Delivery { actions, outcome };
            },
            Step::Continue { state: then, action: following } => {
                state = then;
                action = following;
            },
        }
    }
}

} // verus!
