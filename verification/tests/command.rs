use starboard::command::{
    conclude, create_board, judge, parse_request, recognize, validate, BoardDraft,
    CreateBoardRequest, OptionValue, UserFacingError,
};
use starboard::model::{Board, StoreError};
use starboard::reaction_key::{ReactionKey, UnsupportedReaction};
use starboard::store::BoardStore;

fn key(raw: &str) -> ReactionKey {
    ReactionKey::from_raw(raw).unwrap()
}

fn request(raw: &str, threshold: i64) -> CreateBoardRequest {
    CreateBoardRequest {
        guild_id: 10,
        channel_id: 77,
        reaction_key_raw: String::from(raw),
        threshold,
    }
}

#[test]
fn the_command_is_known_by_its_name() {
    assert_eq!(recognize("createboard"), Ok(()));
    assert_eq!(recognize("createboards"), Err(UserFacingError::UnknownCommand));
    assert_eq!(recognize("Createboard"), Err(UserFacingError::UnknownCommand));
    assert_eq!(recognize(""), Err(UserFacingError::UnknownCommand));
}

#[test]
fn parse_request_reads_channel_emoji_and_threshold() {
    let options = vec![
        OptionValue::Channel(77),
        OptionValue::Text(String::from("😊")),
        OptionValue::Integer(2),
    ];
    assert_eq!(parse_request(10, &options), Ok(request("😊", 2)));
}

#[test]
fn parse_request_ignores_what_follows_the_three_options() {
    let options = vec![
        OptionValue::Channel(77),
        OptionValue::Text(String::from("😊")),
        OptionValue::Integer(-4),
        OptionValue::Other,
    ];
    assert_eq!(parse_request(10, &options), Ok(request("😊", -4)));
}

#[test]
fn parse_request_rejects_other_shapes() {
    let swapped = vec![
        OptionValue::Text(String::from("😊")),
        OptionValue::Channel(77),
        OptionValue::Integer(2),
    ];
    assert_eq!(parse_request(10, &swapped), Err(UserFacingError::MalformedRequest));
    let unresolved = vec![
        OptionValue::Channel(77),
        OptionValue::Other,
        OptionValue::Integer(2),
    ];
    assert_eq!(parse_request(10, &unresolved), Err(UserFacingError::MalformedRequest));
    let short = vec![OptionValue::Channel(77), OptionValue::Text(String::from("😊"))];
    assert_eq!(parse_request(10, &short), Err(UserFacingError::MalformedRequest));
    assert_eq!(parse_request(10, &Vec::new()), Err(UserFacingError::MalformedRequest));
}

#[test]
fn judge_turns_the_reaction_away_before_the_threshold() {
    assert_eq!(
        judge(&request("<:x:1>", 0), Err(UnsupportedReaction::Custom)),
        Err(UserFacingError::NonUnicodeReaction)
    );
    assert_eq!(
        judge(&request("nope", 0), Err(UnsupportedReaction::NotInCatalog)),
        Err(UserFacingError::InvalidReaction)
    );
    assert_eq!(judge(&request("😊", 0), Ok(key("😊"))), Err(UserFacingError::ThresholdTooLow));
    assert_eq!(judge(&request("😊", -1), Ok(key("😊"))), Err(UserFacingError::ThresholdTooLow));
}

#[test]
fn judge_passes_a_valid_request() {
    assert_eq!(
        judge(&request("😊", 1), Ok(key("😊"))),
        Ok(BoardDraft { guild_id: 10, channel_id: 77, reaction_key: key("😊"), threshold: 1 })
    );
    assert_eq!(
        judge(&request("😊", i64::MAX), Ok(key("😊"))).unwrap().threshold,
        9223372036854775807
    );
}

#[test]
fn validate_consults_the_catalog() {
    assert_eq!(
        validate(&request("⭐", 3)),
        Ok(BoardDraft { guild_id: 10, channel_id: 77, reaction_key: key("⭐"), threshold: 3 })
    );
    assert_eq!(validate(&request("star", 3)), Err(UserFacingError::InvalidReaction));
    assert_eq!(validate(&request("<:star:9>", 3)), Err(UserFacingError::NonUnicodeReaction));
    assert_eq!(validate(&request("⭐", 0)), Err(UserFacingError::ThresholdTooLow));
}

#[test]
fn conclude_writes_the_confirmation() {
    let draft = BoardDraft { guild_id: 10, channel_id: 77, reaction_key: key("😊"), threshold: 2 };
    let stored =
        Board { id: 1, guild_id: 10, channel_id: 77, reaction_key: key("😊"), threshold: 2 };
    assert_eq!(
        conclude(&draft, &Ok(stored)),
        Ok(String::from(
            "Created! I will now post with more than 2 reactions with the 😊 emoji, I will post it on <#77>"
        ))
    );
}

#[test]
fn conclude_tells_a_conflict_from_an_outage() {
    let draft = BoardDraft { guild_id: 10, channel_id: 77, reaction_key: key("😊"), threshold: 2 };
    assert_eq!(conclude(&draft, &Err(StoreError::Conflict)), Err(UserFacingError::BoardExists));
    assert_eq!(
        conclude(&draft, &Err(StoreError::Unavailable)),
        Err(UserFacingError::StoreUnavailable)
    );
}

#[test]
fn every_rejection_has_its_message() {
    assert_eq!(UserFacingError::UnknownCommand.message(), "Error");
    assert_eq!(UserFacingError::MalformedRequest.message(), "Error!");
    assert_eq!(
        UserFacingError::NonUnicodeReaction.message(),
        "I can't work with non-unicode reactions yet! Sorry!"
    );
    assert_eq!(
        UserFacingError::InvalidReaction.message(),
        "You seem to have passed an invalid reaction! I currently only support unicode emojis."
    );
    assert_eq!(UserFacingError::ThresholdTooLow.message(), "The threshold must be at least 1!");
    assert_eq!(
        UserFacingError::BoardExists.message(),
        "A board already exists for that reaction!"
    );
    assert_eq!(UserFacingError::StoreUnavailable.message(), "Error creating board!");
}

#[test]
fn create_board_writes_the_row_and_confirms() {
    let mut store = BoardStore::new();
    let reply = create_board(&mut store, &request("😊", 2));
    assert_eq!(
        reply,
        Ok(String::from(
            "Created! I will now post with more than 2 reactions with the 😊 emoji, I will post it on <#77>"
        ))
    );
    assert_eq!(
        store.find_board(10, &key("😊")),
        Some(Board { id: 1, guild_id: 10, channel_id: 77, reaction_key: key("😊"), threshold: 2 })
    );
    assert_eq!(store.board_count(), 1);
}

#[test]
fn create_board_with_a_custom_emoji_writes_no_row() {
    let mut store = BoardStore::new();
    let reply = create_board(&mut store, &request("<:blobcat:1234567890>", 2));
    assert_eq!(reply, Err(UserFacingError::NonUnicodeReaction));
    assert!(reply.unwrap_err().message().contains("non-unicode"));
    assert_eq!(store.board_count(), 0);
}

#[test]
fn create_board_with_threshold_zero_writes_no_row() {
    let mut store = BoardStore::new();
    let reply = create_board(&mut store, &request("😊", 0));
    assert_eq!(reply, Err(UserFacingError::ThresholdTooLow));
    assert_eq!(store.board_count(), 0);
    assert_eq!(store.find_board(10, &key("😊")), None);
}

#[test]
fn create_board_with_an_unknown_emoji_writes_no_row() {
    let mut store = BoardStore::new();
    assert_eq!(
        create_board(&mut store, &request("smile", 2)),
        Err(UserFacingError::InvalidReaction)
    );
    assert_eq!(store.board_count(), 0);
}

#[test]
fn create_board_twice_for_the_same_guild_and_emoji_keeps_one_row() {
    let mut store = BoardStore::new();
    assert!(create_board(&mut store, &request("😊", 2)).is_ok());
    let mut again = request("😊", 5);
    again.channel_id = 78;
    let second = create_board(&mut store, &again);
    assert_eq!(second, Err(UserFacingError::BoardExists));
    assert!(second.unwrap_err().message().contains("already exists"));
    assert_eq!(store.board_count(), 1);
    let kept = store.find_board(10, &key("😊")).unwrap();
    assert_eq!(kept.channel_id, 77);
    assert_eq!(kept.threshold, 2);
}

#[test]
fn create_board_for_another_guild_or_emoji_is_another_board() {
    let mut store = BoardStore::new();
    assert!(create_board(&mut store, &request("😊", 2)).is_ok());
    assert!(create_board(&mut store, &request("⭐", 2)).is_ok());
    let mut elsewhere = request("😊", 2);
    elsewhere.guild_id = 11;
    assert!(create_board(&mut store, &elsewhere).is_ok());
    assert_eq!(store.board_count(), 3);
}
