use starboard::engine::{Action, BoardSyncEngine, Matched, Outcome, Reply, State, Step};
use starboard::model::{
    Board, MessageHandle, MessageMapping, MessageSnapshot, ReactionCount, ReactionEvent,
    StoreError, TransportError,
};
use starboard::reaction_key::ReactionKey;

fn key(raw: &str) -> ReactionKey {
    ReactionKey::from_raw(raw).unwrap()
}

fn event(is_removal: bool) -> ReactionEvent {
    ReactionEvent {
        guild_id: 10,
        source_message_id: 500,
        source_channel_id: 50,
        reaction_key: key("😊"),
        is_removal,
    }
}

fn board() -> Board {
    Board { id: 1, guild_id: 10, channel_id: 77, reaction_key: key("😊"), threshold: 2 }
}

fn matched(is_removal: bool) -> Matched {
    Matched { event: event(is_removal), board: board() }
}

fn snapshot(smiles: u64) -> MessageSnapshot {
    MessageSnapshot {
        content: String::from("look at this"),
        author_id: 42,
        author_tag: String::from("ferris#0001"),
        reactions: vec![
            ReactionCount { symbol: String::from("⭐"), count: 9 },
            ReactionCount { symbol: String::from("😊"), count: smiles },
        ],
    }
}

fn mapping() -> MessageMapping {
    MessageMapping { source_message_id: 500, board_message_id: 900, board_id: 1 }
}

fn handle() -> MessageHandle {
    MessageHandle { channel_id: 77, message_id: 900 }
}

#[test]
fn begin_asks_for_the_board() {
    let (state, action) = BoardSyncEngine::begin(event(false));
    assert_eq!(state, State::ResolvingBoard { event: event(false) });
    assert_eq!(action, Action::FindBoard { guild_id: 10, reaction_key: key("😊") });
}

#[test]
fn no_board_means_untracked() {
    let state = State::ResolvingBoard { event: event(false) };
    assert_eq!(
        BoardSyncEngine::advance(state, Reply::Board(None)),
        Step::Finished(Outcome::Untracked)
    );
}

#[test]
fn a_board_leads_to_the_fetch_of_the_source_message() {
    let state = State::ResolvingBoard { event: event(true) };
    assert_eq!(
        BoardSyncEngine::advance(state, Reply::Board(Some(board()))),
        Step::Continue {
            state: State::FetchingMessage { matched: matched(true) },
            action: Action::GetMessage { channel_id: 50, message_id: 500 },
        }
    );
}

#[test]
fn a_source_message_that_is_gone_ends_the_event() {
    let state = State::FetchingMessage { matched: matched(false) };
    assert_eq!(
        BoardSyncEngine::advance(state, Reply::Message(Err(TransportError::NotFound))),
        Step::Finished(Outcome::SourceUnavailable(TransportError::NotFound))
    );
}

#[test]
fn count_below_threshold_on_an_added_reaction_is_a_no_op() {
    let state = State::FetchingMessage { matched: matched(false) };
    assert_eq!(
        BoardSyncEngine::advance(state, Reply::Message(Ok(snapshot(1)))),
        Step::Finished(Outcome::BelowThreshold)
    );
}

#[test]
fn no_matching_reaction_counts_as_zero() {
    let bare = MessageSnapshot {
        content: String::new(),
        author_id: 42,
        author_tag: String::from("ferris#0001"),
        reactions: vec![ReactionCount { symbol: String::from("<:smile:5>"), count: 50 }],
    };
    let state = State::FetchingMessage { matched: matched(false) };
    assert_eq!(
        BoardSyncEngine::advance(state, Reply::Message(Ok(bare))),
        Step::Finished(Outcome::BelowThreshold)
    );
}

#[test]
fn count_at_threshold_leads_to_the_mapping_lookup() {
    let state = State::FetchingMessage { matched: matched(false) };
    assert_eq!(
        BoardSyncEngine::advance(state, Reply::Message(Ok(snapshot(2)))),
        Step::Continue {
            state: State::CheckingMapping {
                matched: matched(false),
                snapshot: snapshot(2),
                qualifies: true,
            },
            action: Action::FindMapping { source_message_id: 500, board_id: 1 },
        }
    );
}

#[test]
fn count_below_threshold_on_a_removal_leads_to_the_mapping_lookup() {
    let state = State::FetchingMessage { matched: matched(true) };
    assert_eq!(
        BoardSyncEngine::advance(state, Reply::Message(Ok(snapshot(1)))),
        Step::Continue {
            state: State::CheckingMapping {
                matched: matched(true),
                snapshot: snapshot(1),
                qualifies: false,
            },
            action: Action::FindMapping { source_message_id: 500, board_id: 1 },
        }
    );
}

#[test]
fn the_first_matching_entry_gives_the_count() {
    let twice = MessageSnapshot {
        content: String::new(),
        author_id: 42,
        author_tag: String::from("ferris#0001"),
        reactions: vec![
            ReactionCount { symbol: String::from("😊"), count: 1 },
            ReactionCount { symbol: String::from("😊"), count: 5 },
        ],
    };
    assert_eq!(twice.count_of(&key("😊")), 1);
    assert_eq!(twice.count_of(&key("⭐")), 0);
    assert_eq!(snapshot(4).count_of(&key("😊")), 4);
    assert_eq!(snapshot(4).count_of(&key("⭐")), 9);
}

#[test]
fn qualifying_without_mapping_asks_for_the_nickname() {
    let state = State::CheckingMapping {
        matched: matched(false),
        snapshot: snapshot(2),
        qualifies: true,
    };
    assert_eq!(
        BoardSyncEngine::advance(state, Reply::Mapping(None)),
        Step::Continue {
            state: State::ResolvingNickname { matched: matched(false), snapshot: snapshot(2) },
            action: Action::ResolveNickname { guild_id: 10, user_id: 42 },
        }
    );
}

#[test]
fn qualifying_with_mapping_is_already_posted() {
    for is_removal in [false, true] {
        let state = State::CheckingMapping {
            matched: matched(is_removal),
            snapshot: snapshot(3),
            qualifies: true,
        };
        assert_eq!(
            BoardSyncEngine::advance(state, Reply::Mapping(Some(mapping()))),
            Step::Finished(Outcome::AlreadyPosted(mapping()))
        );
    }
}

#[test]
fn not_qualifying_without_mapping_was_never_posted() {
    let state = State::CheckingMapping {
        matched: matched(true),
        snapshot: snapshot(1),
        qualifies: false,
    };
    assert_eq!(
        BoardSyncEngine::advance(state, Reply::Mapping(None)),
        Step::Finished(Outcome::NeverPosted)
    );
}

#[test]
fn not_qualifying_with_mapping_deletes_the_board_message() {
    let state = State::CheckingMapping {
        matched: matched(true),
        snapshot: snapshot(1),
        qualifies: false,
    };
    assert_eq!(
        BoardSyncEngine::advance(state, Reply::Mapping(Some(mapping()))),
        Step::Continue {
            state: State::Removing { matched: matched(true), mapping: mapping() },
            action: Action::DeleteMessage { channel_id: 77, message_id: 900 },
        }
    );
}

#[test]
fn the_board_message_goes_to_the_board_channel() {
    let state = State::ResolvingNickname { matched: matched(false), snapshot: snapshot(2) };
    assert_eq!(
        BoardSyncEngine::advance(state, Reply::Nickname(Some(String::from("Crab")))),
        Step::Continue {
            state: State::Sending { matched: matched(false) },
            action: Action::SendMessage {
                channel_id: 77,
                body: String::from("look at this\n\n---\n**From:** Crab (ferris#0001)"),
            },
        }
    );
    let state = State::ResolvingNickname { matched: matched(false), snapshot: snapshot(2) };
    assert_eq!(
        BoardSyncEngine::advance(state, Reply::Nickname(None)),
        Step::Continue {
            state: State::Sending { matched: matched(false) },
            action: Action::SendMessage {
                channel_id: 77,
                body: String::from("look at this\n\n---\n**From:** ferris#0001"),
            },
        }
    );
}

#[test]
fn a_failed_send_ends_the_event() {
    let state = State::Sending { matched: matched(false) };
    assert_eq!(
        BoardSyncEngine::advance(state, Reply::Sent(Err(TransportError::Failed))),
        Step::Finished(Outcome::SendFailed(TransportError::Failed))
    );
}

#[test]
fn a_sent_message_is_recorded() {
    let state = State::Sending { matched: matched(false) };
    assert_eq!(
        BoardSyncEngine::advance(state, Reply::Sent(Ok(handle()))),
        Step::Continue {
            state: State::Recording { matched: matched(false), handle: handle() },
            action: Action::InsertMapping {
                source_message_id: 500,
                board_message_id: 900,
                board_id: 1,
            },
        }
    );
}

#[test]
fn a_recorded_mapping_means_posted() {
    let state = State::Recording { matched: matched(false), handle: handle() };
    assert_eq!(
        BoardSyncEngine::advance(state, Reply::MappingInserted(Ok(()))),
        Step::Finished(Outcome::Posted(mapping()))
    );
}

#[test]
fn a_mapping_that_cannot_be_recorded_retracts_the_message() {
    for cause in [StoreError::Conflict, StoreError::Unavailable] {
        let sent = MessageHandle { channel_id: 78, message_id: 901 };
        let state = State::Recording { matched: matched(false), handle: sent };
        assert_eq!(
            BoardSyncEngine::advance(state, Reply::MappingInserted(Err(cause))),
            Step::Continue {
                state: State::Retracting { matched: matched(false), handle: sent, cause },
                action: Action::DeleteMessage { channel_id: 78, message_id: 901 },
            }
        );
    }
}

#[test]
fn the_retraction_is_reported_either_way() {
    for retraction in [Ok(()), Err(TransportError::Failed)] {
        let state = State::Retracting {
            matched: matched(false),
            handle: handle(),
            cause: StoreError::Conflict,
        };
        assert_eq!(
            BoardSyncEngine::advance(state, Reply::MessageDeleted(retraction)),
            Step::Finished(Outcome::RecordFailed { cause: StoreError::Conflict, retraction })
        );
    }
}

#[test]
fn a_board_message_that_cannot_be_deleted_keeps_its_mapping() {
    let state = State::Removing { matched: matched(true), mapping: mapping() };
    assert_eq!(
        BoardSyncEngine::advance(state, Reply::MessageDeleted(Err(TransportError::Failed))),
        Step::Finished(Outcome::RemovalFailed {
            mapping: mapping(),
            error: TransportError::Failed,
        })
    );
}

#[test]
fn a_deleted_board_message_has_its_mapping_removed() {
    let state = State::Removing { matched: matched(true), mapping: mapping() };
    assert_eq!(
        BoardSyncEngine::advance(state, Reply::MessageDeleted(Ok(()))),
        Step::Continue {
            state: State::Forgetting { matched: matched(true), mapping: mapping() },
            action: Action::DeleteMapping { source_message_id: 500, board_id: 1 },
        }
    );
}

#[test]
fn the_removal_of_the_mapping_ends_the_event() {
    for row_removed in [true, false] {
        let state = State::Forgetting { matched: matched(true), mapping: mapping() };
        assert_eq!(
            BoardSyncEngine::advance(state, Reply::MappingDeleted(Ok(row_removed))),
            Step::Finished(Outcome::Unposted { mapping: mapping(), row_removed })
        );
    }
    let state = State::Forgetting { matched: matched(true), mapping: mapping() };
    assert_eq!(
        BoardSyncEngine::advance(state, Reply::MappingDeleted(Err(StoreError::Unavailable))),
        Step::Finished(Outcome::StaleMapping {
            mapping: mapping(),
            cause: StoreError::Unavailable,
        })
    );
}

#[test]
fn a_reply_out_of_turn_ends_the_event() {
    let state = State::ResolvingBoard { event: event(false) };
    assert_eq!(
        BoardSyncEngine::advance(state, Reply::Mapping(None)),
        Step::Finished(Outcome::OutOfTurn)
    );
    let state = State::Sending { matched: matched(false) };
    assert_eq!(
        BoardSyncEngine::advance(state, Reply::MessageDeleted(Ok(()))),
        Step::Finished(Outcome::OutOfTurn)
    );
}

#[test]
fn observe_builds_the_event_of_a_supported_reaction() {
    assert_eq!(ReactionEvent::observe(10, 500, 50, "😊", false), Some(event(false)));
    assert_eq!(ReactionEvent::observe(10, 500, 50, "😊", true), Some(event(true)));
    assert_eq!(ReactionEvent::observe(10, 500, 50, "<:smile:5>", false), None);
    assert_eq!(ReactionEvent::observe(10, 500, 50, "smile", true), None);
}
