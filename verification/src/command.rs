//! The board-creation command: from the options that the platform hands
//! over to a new row in the store and a reply for the user.

use crate::model::{Board, BoardView, StoreError};
use crate::reaction_key::{
    catalog_lists, classified, key_view, ReactionKey, UnsupportedReaction,
};
use crate::store::{inserted_view, BoardStore, StoreView};
use crate::text::{confirmation, render_confirmation};
use vstd::prelude::*;
use vstd::string::*;

verus! {

/// The value of one option of a command, as far as this command reads it.
#[derive(Debug, PartialEq, Eq)]
pub enum OptionValue {
    /// A channel, by id.
    Channel(u64),
    /// A text.
    Text(String),
    /// An integer.
    Integer(i64),
    /// Anything else, or an option left unresolved.
    Other,
}

/// An option value over sequences.
pub enum OptionValueView {
    Channel(u64),
    Text(Seq<char>),
    Integer(i64),
    Other,
}

impl View for OptionValue {
    type V = OptionValueView;

    open spec fn view(&self) -> OptionValueView {
        match *self {
            OptionValue::Channel(id) => OptionValueView::Channel(id),
            OptionValue::Text(text) => OptionValueView::Text(text@),
            OptionValue::Integer(n) => OptionValueView::Integer(n),
            OptionValue::Other => OptionValueView::Other,
        }
    }
}

/// The views of `options`, in the same order.
pub open spec fn option_views(options: Seq<OptionValue>) -> Seq<OptionValueView> {
    Seq::new(options.len(), |i: int| options[i]@)
}

/// A request to create a board, not yet validated.
#[derive(Debug, PartialEq, Eq)]
pub struct CreateBoardRequest {
    pub guild_id: u64,
    pub channel_id: u64,
    pub reaction_key_raw: String,
    pub threshold: i64,
}

/// A request over sequences.
pub struct CreateBoardRequestView {
    pub guild_id: u64,
    pub channel_id: u64,
    pub reaction_key_raw: Seq<char>,
    pub threshold: i64,
}

impl View for CreateBoardRequest {
    type V = CreateBoardRequestView;

    open spec fn view(&self) -> CreateBoardRequestView {
        CreateBoardRequestView {
            guild_id: self.guild_id,
            channel_id: self.channel_id,
            reaction_key_raw: self.reaction_key_raw@,
            threshold: self.threshold,
        }
    }
}

/// A request that passed validation: what the store is asked to insert.
#[derive(Debug, PartialEq, Eq)]
pub struct BoardDraft {
    pub guild_id: u64,
    pub channel_id: u64,
    pub reaction_key: ReactionKey,
    pub threshold: u64,
}

/// A draft over sequences.
pub struct BoardDraftView {
    pub guild_id: u64,
    pub channel_id: u64,
    pub reaction_key: Seq<char>,
    pub threshold: u64,
}

impl View for BoardDraft {
    type V = BoardDraftView;

    open spec fn view(&self) -> BoardDraftView {
        BoardDraftView {
            guild_id: self.guild_id,
            channel_id: self.channel_id,
            reaction_key: self.reaction_key@,
            threshold: self.threshold,
        }
    }
}

/// Why a command was turned away, in terms the user is told.
#[derive(Clone, Copy, Debug, PartialEq, Eq, Structural)]
pub enum UserFacingError {
    /// The command is not one of this relay.
    UnknownCommand,
    /// The options do not have the shape of the command.
    MalformedRequest,
    /// The reaction is a custom (non-unicode) one.
    NonUnicodeReaction,
    /// The reaction is no emoji of the catalog.
    InvalidReaction,
    /// The threshold is below 1.
    ThresholdTooLow,
    /// The guild already has a board for the reaction.
    BoardExists,
    /// The store could not take the board.
    StoreUnavailable,
}

impl UserFacingError {
    /// The reply that the user gets.
    pub open spec fn text(self) -> Seq<char> {
        match self {
            UserFacingError::UnknownCommand => "Error"@,
            UserFacingError::MalformedRequest => "Error!"@,
            UserFacingError::NonUnicodeReaction => "I can't work with non-unicode reactions yet! Sorry!"@,
            UserFacingError::InvalidReaction => "You seem to have passed an invalid reaction! I currently only support unicode emojis."@,
            UserFacingError::ThresholdTooLow => "The threshold must be at least 1!"@,
            UserFacingError::BoardExists => "A board already exists for that reaction!"@,
            UserFacingError::StoreUnavailable => "Error creating board!"@,
        }
    }

    /// Writes the reply that the user gets.
    pub fn message(&self) -> (reply: String)
        ensures
            reply@ == self.text(),
    {
        match self {
            UserFacingError::UnknownCommand => String::from_str("Error"),
            UserFacingError::MalformedRequest => String::from_str("Error!"),
            UserFacingError::NonUnicodeReaction => String::from_str(
                "I can't work with non-unicode reactions yet! Sorry!",
            ),
            UserFacingError::InvalidReaction => String::from_str(
                "You seem to have passed an invalid reaction! I currently only support unicode emojis.",
            ),
            UserFacingError::ThresholdTooLow => String::from_str(
                "The threshold must be at least 1!",
            ),
            UserFacingError::BoardExists => String::from_str(
                "A board already exists for that reaction!",
            ),
            UserFacingError::StoreUnavailable => String::from_str("Error creating board!"),
        }
    }
}

/// The name of the board-creation command.
pub open spec fn command_name() -> Seq<char> {
    "createboard"@
}

/// Whether a command of the name `name` is the board-creation command.
pub open spec fn recognized(name: Seq<char>) -> Result<(), UserFacingError> {
    if name == command_name() {
        Ok(())
    } else {
        Err(UserFacingError::UnknownCommand)
    }
}

/// The request in `options`: a channel, a text and an integer, in this
/// order, and whatever follows them.
pub open spec fn parsed(guild_id: u64, options: Seq<OptionValueView>) -> Result<
    CreateBoardRequestView,
    UserFacingError,
> {
    if options.len() >= 3 && options[0] is Channel && options[1] is Text
        && options[2] is Integer {
        Ok(
            CreateBoardRequestView {
                guild_id,
                channel_id: options[0]->Channel_0,
                reaction_key_raw: options[1]->Text_0,
                threshold: options[2]->Integer_0,
            },
        )
    } else {
        Err(UserFacingError::MalformedRequest)
    }
}

/// What validation makes of `request`, given what became of its reaction:
/// the reaction is judged first, then the threshold.
pub open spec fn judged(
    request: CreateBoardRequestView,
    key: Result<Seq<char>, UnsupportedReaction>,
) -> Result<BoardDraftView, UserFacingError> {
    match key {
        Err(UnsupportedReaction::Custom) => Err(UserFacingError::NonUnicodeReaction),
        Err(UnsupportedReaction::NotInCatalog) => Err(UserFacingError::InvalidReaction),
        Ok(reaction_key) => if request.threshold < 1 {
            Err(UserFacingError::ThresholdTooLow)
        } else {
            Ok(
                BoardDraftView {
                    guild_id: request.guild_id,
                    channel_id: request.channel_id,
                    reaction_key,
                    threshold: request.threshold as u64,
                },
            )
        },
    }
}

/// What validation makes of `request` where the catalog answers `listed`.
pub open spec fn validated(request: CreateBoardRequestView, listed: bool) -> Result<
    BoardDraftView,
    UserFacingError,
> {
    judged(request, classified(request.reaction_key_raw, listed))
}

/// The reply once the store has answered the insertion of `draft`.
pub open spec fn concluded(draft: BoardDraftView, stored: Result<BoardView, StoreError>) -> Result<
    Seq<char>,
    UserFacingError,
> {
    match stored {
        Ok(_) => Ok(confirmation(draft.threshold, draft.reaction_key, draft.channel_id)),
        Err(StoreError::Conflict) => Err(UserFacingError::BoardExists),
        Err(StoreError::Unavailable) => Err(UserFacingError::StoreUnavailable),
    }
}

/// The whole command on a store: nothing is written unless the request is
/// valid, and then the store decides.
pub open spec fn created(store: StoreView, request: CreateBoardRequestView, listed: bool) -> (
    StoreView,
    Result<Seq<char>, UserFacingError>,
) {
    match validated(request, listed) {
        Err(e) => (store, Err(e)),
        Ok(draft) => {
            let (after, stored) = store.insert_board(
                draft.guild_id,
                draft.channel_id,
                draft.reaction_key,
                draft.threshold,
            );
            (after, concluded(draft, stored))
        },
    }
}

/// The view of a request, or the reason there is none.
pub open spec fn request_view(r: Result<CreateBoardRequest, UserFacingError>) -> Result<
    CreateBoardRequestView,
    UserFacingError,
> {
    match r {
        Ok(request) => Ok(request@),
        Err(e) => Err(e),
    }
}

/// The view of a draft, or the reason there is none.
pub open spec fn draft_view(r: Result<BoardDraft, UserFacingError>) -> Result<
    BoardDraftView,
    UserFacingError,
> {
    match r {
        Ok(draft) => Ok(draft@),
        Err(e) => Err(e),
    }
}

/// The code points of a reply, or the reason there is none.
pub open spec fn reply_view(r: Result<String, UserFacingError>) -> Result<
    Seq<char>,
    UserFacingError,
> {
    match r {
        Ok(reply) => Ok(reply@),
        Err(e) => Err(e),
    }
}

/// Recognizes the board-creation command by its name; any other command is
/// unknown.
pub fn recognize(name: &str) -> (known: Result<(), UserFacingError>)
    ensures
        known == recognized(name@),
{
    if String::from_str(name) == String::from_str("createboard") {
        Ok(())
    } else {
        Err(UserFacingError::UnknownCommand)
    }
}

/// Reads the request out of the options of the command.
pub fn parse_request(guild_id: u64, options: &Vec<OptionValue>) -> (request: Result<
    CreateBoardRequest,
    UserFacingError,
>)
    ensures
        request_view(request) == parsed(guild_id, option_views(options@)),
{
    if options.len() < 3 {
        return Err(UserFacingError::MalformedRequest);
    }
    match (&options[0], &options[1], &options[2]) {
        (
            OptionValue::Channel(channel_id),
            OptionValue::Text(raw),
            OptionValue::Integer(threshold),
        ) => Ok(
            CreateBoardRequest {
                guild_id,
                channel_id: *channel_id,
                reaction_key_raw: raw.clone(),
                threshold: *threshold,
            },
        ),
        _ => Err(UserFacingError::MalformedRequest),
    }
}

/// Validates `request`, given what became of its reaction.
pub fn judge(request: &CreateBoardRequest, key: Result<ReactionKey, UnsupportedReaction>) -> (draft:
    Result<BoardDraft, UserFacingError>)
    ensures
        draft_view(draft) == judged(request@, key_view(key)),
{
    match key {
        Err(UnsupportedReaction::Custom) => Err(UserFacingError::NonUnicodeReaction),
        Err(UnsupportedReaction::NotInCatalog) => Err(UserFacingError::InvalidReaction),
        Ok(reaction_key) => {
            if request.threshold < 1 {
                Err(UserFacingError::ThresholdTooLow)
            } else {
                Ok(
                    BoardDraft {
                        guild_id: request.guild_id,
                        channel_id: request.channel_id,
                        reaction_key,
                        threshold: request.threshold as u64,
                    },
                )
            }
        },
    }
}

/// Validates `request`: its reaction against the catalog, then its
/// threshold.
pub fn validate(request: &CreateBoardRequest) -> (draft: Result<BoardDraft, UserFacingError>)
    ensures
        draft_view(draft) == validated(
            request@,
            catalog_lists(request@.reaction_key_raw),
        ),
{
    judge(request, ReactionKey::from_raw(request.reaction_key_raw.as_str()))
}

/// Writes the reply once the store has answered the insertion of `draft`.
pub fn conclude(draft: &BoardDraft, stored: &Result<Board, StoreError>) -> (reply: Result<
    String,
    UserFacingError,
>)
    ensures
        reply_view(reply) == concluded(draft@, inserted_view(*stored)),
{
    match stored {
        Ok(_) => Ok(
            render_confirmation(draft.threshold, draft.reaction_key.as_str(), draft.channel_id),
        ),
        Err(StoreError::Conflict) => Err(UserFacingError::BoardExists),
        Err(StoreError::Unavailable) => Err(UserFacingError::StoreUnavailable),
    }
}

/// Creates a board in `store` as `request` asks, and writes the reply.
pub fn create_board(store: &mut BoardStore, request: &CreateBoardRequest) -> (reply: Result<
    String,
    UserFacingError,
>)
    requires
        old(store).wf(),
    ensures
        final(store).wf(),
        (final(store)@, reply_view(reply)) == created(
            old(store)@,
            request@,
            catalog_lists(request@.reaction_key_raw),
        ),
{
    match validate(request) {
        Err(e) => Err(e),
        Ok(draft) => {
            let stored = store.insert_board(
                draft.guild_id,
                draft.channel_id,
                draft.reaction_key.clone(),
                draft.threshold,
            );
            conclude(&draft, &stored)
        },
    }
}

} // verus!
