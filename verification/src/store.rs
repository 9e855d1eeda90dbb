//! The board store: the table of boards, unique on guild and reaction, and
//! the table of mappings, unique on source message and board. This one is
//! held in memory; a durable store answers the same questions the same way.

use crate::model::{Board, BoardView, MessageMapping, StoreError};
use crate::reaction_key::ReactionKey;
use vstd::prelude::*;

verus! {

/// What a board is unique on: its guild and the code points of its key.
pub type BoardKey = (u64, Seq<char>);

/// What a mapping is unique on: its source message and its board.
pub type MappingKey = (u64, u64);

/// The unique key of `board`.
pub open spec fn board_key(board: BoardView) -> BoardKey {
    (board.guild_id, board.reaction_key)
}

/// The unique key of `mapping`.
pub open spec fn mapping_key(mapping: MessageMapping) -> MappingKey {
    (mapping.source_message_id, mapping.board_id)
}

/// The two tables as maps from unique key to row, and the id that the next
/// board gets.
pub struct StoreView {
    pub boards: Map<BoardKey, BoardView>,
    pub mappings: Map<MappingKey, MessageMapping>,
    pub next_id: u64,
}

/// The view of a looked-up or inserted board.
pub open spec fn board_view(board: Option<Board>) -> Option<BoardView> {
    match board {
        Some(b) => Some(b@),
        None => None,
    }
}

/// The view of the result of a board insertion.
pub open spec fn inserted_view(r: Result<Board, StoreError>) -> Result<BoardView, StoreError> {
    match r {
        Ok(b) => Ok(b@),
        Err(e) => Err(e),
    }
}

impl StoreView {
    /// A store without rows.
    pub open spec fn empty() -> StoreView {
        StoreView { boards: Map::empty(), mappings: Map::empty(), next_id: 1 }
    }

    /// Every row sits under its own key, board ids are below the next one
    /// and differ from board to board, and thresholds are at least 1.
    pub open spec fn wf(self) -> bool {
        &&& self.boards.dom().finite()
        &&& self.mappings.dom().finite()
        &&& forall|k: BoardKey| #[trigger]
            self.boards.contains_key(k) ==> {
                &&& board_key(self.boards[k]) == k
                &&& self.boards[k].id < self.next_id
                &&& self.boards[k].threshold >= 1
            }
        &&& forall|j: BoardKey, k: BoardKey|
            #![trigger self.boards[j], self.boards[k]]
            self.boards.contains_key(j) && self.boards.contains_key(k) && self.boards[j].id
                == self.boards[k].id ==> j == k
        &&& forall|k: MappingKey| #[trigger]
            self.mappings.contains_key(k) ==> mapping_key(self.mappings[k]) == k
    }

    /// The board that tracks `key` in `guild_id`, if there is one.
    pub open spec fn find_board(self, guild_id: u64, key: Seq<char>) -> Option<BoardView> {
        if self.boards.contains_key((guild_id, key)) {
            Some(self.boards[(guild_id, key)])
        } else {
            None
        }
    }

    /// The board that an insertion would create.
    pub open spec fn new_board(self, guild_id: u64, channel_id: u64, key: Seq<char>, threshold: u64)
        -> BoardView {
        BoardView { id: self.next_id, guild_id, channel_id, reaction_key: key, threshold }
    }

    /// Inserting a board: a conflict where the guild already has one for the
    /// key, unavailable where no id is left, else the new row under the next
    /// id. A failed insertion leaves the store as it was.
    pub open spec fn insert_board(
        self,
        guild_id: u64,
        channel_id: u64,
        key: Seq<char>,
        threshold: u64,
    ) -> (StoreView, Result<BoardView, StoreError>) {
        if self.boards.contains_key((guild_id, key)) {
            (self, Err(StoreError::Conflict))
        } else if self.next_id == u64::MAX {
            (self, Err(StoreError::Unavailable))
        } else {
            let board = self.new_board(guild_id, channel_id, key, threshold);
            (
                StoreView {
                    boards: self.boards.insert((guild_id, key), board),
                    mappings: self.mappings,
                    next_id: (self.next_id + 1) as u64,
                },
                Ok(board),
            )
        }
    }

    /// The mapping of `source_message_id` on `board_id`, if there is one.
    pub open spec fn find_mapping(self, source_message_id: u64, board_id: u64) -> Option<
        MessageMapping,
    > {
        if self.mappings.contains_key((source_message_id, board_id)) {
            Some(self.mappings[(source_message_id, board_id)])
        } else {
            None
        }
    }

    /// Inserting a mapping: a conflict where the source message already has
    /// one on the board, else the new row.
    pub open spec fn insert_mapping(
        self,
        source_message_id: u64,
        board_message_id: u64,
        board_id: u64,
    ) -> (StoreView, Result<(), StoreError>) {
        if self.mappings.contains_key((source_message_id, board_id)) {
            (self, Err(StoreError::Conflict))
        } else {
            (
                StoreView {
                    boards: self.boards,
                    mappings: self.mappings.insert(
                        (source_message_id, board_id),
                        MessageMapping { source_message_id, board_message_id, board_id },
                    ),
                    next_id: self.next_id,
                },
                Ok(()),
            )
        }
    }

    /// Deleting a mapping: the row is gone afterwards, and the result tells
    /// whether it was there.
    pub open spec fn delete_mapping(self, source_message_id: u64, board_id: u64) -> (
        StoreView,
        Result<bool, StoreError>,
    ) {
        (
            StoreView {
                boards: self.boards,
                mappings: self.mappings.remove((source_message_id, board_id)),
                next_id: self.next_id,
            },
            Ok(self.mappings.contains_key((source_message_id, board_id))),
        )
    }
}

/// Inserting a board with a threshold of at least 1 keeps the store well
/// formed.
pub proof fn lemma_insert_board_keeps_wf(
    store: StoreView,
    guild_id: u64,
    channel_id: u64,
    key: Seq<char>,
    threshold: u64,
)
    requires
        store.wf(),
        threshold >= 1,
    ensures
        store.insert_board(guild_id, channel_id, key, threshold).0.wf(),
{
}

/// Inserting a mapping keeps the store well formed.
pub proof fn lemma_insert_mapping_keeps_wf(
    store: StoreView,
    source_message_id: u64,
    board_message_id: u64,
    board_id: u64,
)
    requires
        store.wf(),
    ensures
        store.insert_mapping(source_message_id, board_message_id, board_id).0.wf(),
{
}

/// Deleting a mapping keeps the store well formed.
pub proof fn lemma_delete_mapping_keeps_wf(store: StoreView, source_message_id: u64, board_id: u64)
    requires
        store.wf(),
    ensures
        store.delete_mapping(source_message_id, board_id).0.wf(),
{
}

/// Boards and mappings, held in memory.
pub struct BoardStore {
    boards: Vec<Board>,
    mappings: Vec<MessageMapping>,
    next_id: u64,
    board_index: Ghost<Map<BoardKey, BoardView>>,
    mapping_index: Ghost<Map<MappingKey, MessageMapping>>,
}

impl View for BoardStore {
    type V = StoreView;

    closed spec fn view(&self) -> StoreView {
        StoreView {
            boards: self.board_index@,
            mappings: self.mapping_index@,
            next_id: self.next_id,
        }
    }
}

/// The key of the `i`-th board row.
spec fn board_row_key(rows: Seq<Board>, i: int) -> BoardKey {
    board_key(rows[i]@)
}

/// The key of the `i`-th mapping row.
spec fn mapping_row_key(rows: Seq<MessageMapping>, i: int) -> MappingKey {
    mapping_key(rows[i])
}

/// The board rows are exactly what `index` holds, each key once.
spec fn boards_agree(rows: Seq<Board>, index: Map<BoardKey, BoardView>) -> bool {
    &&& index.dom().finite()
    &&& index.dom().len() == rows.len()
    &&& forall|i: int|
        0 <= i < rows.len() ==> {
            &&& index.contains_key(#[trigger] board_row_key(rows, i))
            &&& index[board_row_key(rows, i)] == rows[i]@
        }
    &&& forall|k: BoardKey| #[trigger]
        index.contains_key(k) ==> exists|i: int|
            0 <= i < rows.len() && #[trigger] board_row_key(rows, i) == k
    &&& forall|i: int, j: int|
        0 <= i < j < rows.len() ==> #[trigger] board_row_key(rows, i) != #[trigger] board_row_key(
            rows,
            j,
        )
}

/// The mapping rows are exactly what `index` holds, each key once.
spec fn mappings_agree(rows: Seq<MessageMapping>, index: Map<MappingKey, MessageMapping>) -> bool {
    &&& index.dom().finite()
    &&& index.dom().len() == rows.len()
    &&& forall|i: int|
        0 <= i < rows.len() ==> {
            &&& index.contains_key(#[trigger] mapping_row_key(rows, i))
            &&& index[mapping_row_key(rows, i)] == rows[i]
        }
    &&& forall|k: MappingKey| #[trigger]
        index.contains_key(k) ==> exists|i: int|
            0 <= i < rows.len() && #[trigger] mapping_row_key(rows, i) == k
    &&& forall|i: int, j: int|
        0 <= i < j < rows.len() ==> #[trigger] mapping_row_key(rows, i)
            != #[trigger] mapping_row_key(rows, j)
}

proof fn lemma_board_pushed(rows: Seq<Board>, index: Map<BoardKey, BoardView>, board: Board)
    requires
        boards_agree(rows, index),
        !index.contains_key(board_key(board@)),
    ensures
        boards_agree(rows.push(board), index.insert(board_key(board@), board@)),
{
    let key = board_key(board@);
    let rows2 = rows.push(board);
    let index2 = index.insert(key, board@);
    assert forall|i: int| 0 <= i < rows2.len() implies {
        &&& index2.contains_key(#[trigger] board_row_key(rows2, i))
        &&& index2[board_row_key(rows2, i)] == rows2[i]@
    } by {
        if i < rows.len() {
            assert(board_row_key(rows2, i) == board_row_key(rows, i));
        }
    }
    assert forall|k: BoardKey| #[trigger] index2.contains_key(k) implies exists|i: int|
        0 <= i < rows2.len() && #[trigger] board_row_key(rows2, i) == k by {
        if k == key {
            assert(board_row_key(rows2, rows.len() as int) == k);
        } else {
            let i = choose|i: int| 0 <= i < rows.len() && #[trigger] board_row_key(rows, i) == k;
            assert(board_row_key(rows2, i) == k);
        }
    }
    assert forall|i: int, j: int| 0 <= i < j < rows2.len() implies #[trigger] board_row_key(
        rows2,
        i,
    ) != #[trigger] board_row_key(rows2, j) by {
        assert(board_row_key(rows2, i) == board_row_key(rows, i));
        if j < rows.len() {
            assert(board_row_key(rows2, j) == board_row_key(rows, j));
        }
    }
}

proof fn lemma_mapping_pushed(
    rows: Seq<MessageMapping>,
    index: Map<MappingKey, MessageMapping>,
    mapping: MessageMapping,
)
    requires
        mappings_agree(rows, index),
        !index.contains_key(mapping_key(mapping)),
    ensures
        mappings_agree(rows.push(mapping), index.insert(mapping_key(mapping), mapping)),
{
    let key = mapping_key(mapping);
    let rows2 = rows.push(mapping);
    let index2 = index.insert(key, mapping);
    assert forall|i: int| 0 <= i < rows2.len() implies {
        &&& index2.contains_key(#[trigger] mapping_row_key(rows2, i))
        &&& index2[mapping_row_key(rows2, i)] == rows2[i]
    } by {
        if i < rows.len() {
            assert(mapping_row_key(rows2, i) == mapping_row_key(rows, i));
        }
    }
    assert forall|k: MappingKey| #[trigger] index2.contains_key(k) implies exists|i: int|
        0 <= i < rows2.len() && #[trigger] mapping_row_key(rows2, i) == k by {
        if k == key {
            assert(mapping_row_key(rows2, rows.len() as int) == k);
        } else {
            let i = choose|i: int| 0 <= i < rows.len() && #[trigger] mapping_row_key(rows, i) == k;
            assert(mapping_row_key(rows2, i) == k);
        }
    }
    assert forall|i: int, j: int| 0 <= i < j < rows2.len() implies #[trigger] mapping_row_key(
        rows2,
        i,
    ) != #[trigger] mapping_row_key(rows2, j) by {
        assert(mapping_row_key(rows2, i) == mapping_row_key(rows, i));
        if j < rows.len() {
            assert(mapping_row_key(rows2, j) == mapping_row_key(rows, j));
        }
    }
}

proof fn lemma_mapping_removed(
    rows: Seq<MessageMapping>,
    index: Map<MappingKey, MessageMapping>,
    at: int,
)
    requires
        mappings_agree(rows, index),
        0 <= at < rows.len(),
    ensures
        mappings_agree(rows.remove(at), index.remove(mapping_row_key(rows, at))),
{
    let key = mapping_row_key(rows, at);
    let rows2 = rows.remove(at);
    let index2 = index.remove(key);
    assert forall|i: int| 0 <= i < rows2.len() implies {
        &&& index2.contains_key(#[trigger] mapping_row_key(rows2, i))
        &&& index2[mapping_row_key(rows2, i)] == rows2[i]
    } by {
        let j = if i < at { i } else { i + 1 };
        assert(mapping_row_key(rows, j) != mapping_row_key(rows, at));
    }
    assert forall|k: MappingKey| #[trigger] index2.contains_key(k) implies exists|i: int|
        0 <= i < rows2.len() && #[trigger] mapping_row_key(rows2, i) == k by {
        let j = choose|j: int| 0 <= j < rows.len() && #[trigger] mapping_row_key(rows, j) == k;
        let i = if j < at { j } else { j - 1 };
        assert(mapping_row_key(rows2, i) == k);
    }
    assert forall|i: int, j: int| 0 <= i < j < rows2.len() implies #[trigger] mapping_row_key(
        rows2,
        i,
    ) != #[trigger] mapping_row_key(rows2, j) by {
        let i0 = if i < at { i } else { i + 1 };
        let j0 = if j < at { j } else { j + 1 };
        assert(mapping_row_key(rows2, i) == mapping_row_key(rows, i0));
        assert(mapping_row_key(rows2, j) == mapping_row_key(rows, j0));
    }
}

impl BoardStore {
    /// The rows are exactly what the view holds, each unique key once.
    pub closed spec fn wf(self) -> bool {
        &&& self@.wf()
        &&& self.next_id >= 1
        &&& boards_agree(self.boards@, self.board_index@)
        &&& mappings_agree(self.mappings@, self.mapping_index@)
    }

    /// A well-formed store has a well-formed view.
    pub proof fn lemma_wf_view(self)
        requires
            self.wf(),
        ensures
            self@.wf(),
    {
    }

    /// A store without rows.
    pub fn new() -> (store: BoardStore)
        ensures
            store.wf(),
            store@ == StoreView::empty(),
    {
        let store = BoardStore {
            boards: Vec::new(),
            mappings: Vec::new(),
            next_id: 1,
            board_index: Ghost(Map::empty()),
            mapping_index: Ghost(Map::empty()),
        };
        store
    }

    /// How many boards the store holds.
    pub fn board_count(&self) -> (n: usize)
        requires
            self.wf(),
        ensures
            n == self@.boards.dom().len(),
    {
        self.boards.len()
    }

    /// How many mappings the store holds.
    pub fn mapping_count(&self) -> (n: usize)
        requires
            self.wf(),
        ensures
            n == self@.mappings.dom().len(),
    {
        self.mappings.len()
    }

    /// Looks up the board that tracks `key` in `guild_id`. No match is no
    /// error: no board tracks that reaction there.
    pub fn find_board(&self, guild_id: u64, key: &ReactionKey) -> (found: Option<Board>)
        requires
            self.wf(),
        ensures
            board_view(found) == self@.find_board(guild_id, key@),
    {
        let mut i: usize = 0;
        while i < self.boards.len()
            invariant
                self.wf(),
                i <= self.boards.len(),
                forall|j: int|
                    0 <= j < i ==> #[trigger] board_row_key(self.boards@, j) != (guild_id, key@),
            decreases self.boards.len() - i,
        {
            let board = &self.boards[i];
            if board.guild_id == guild_id && board.reaction_key.equals(key) {
                assert(board_row_key(self.boards@, i as int) == (guild_id, key@));
                return Some(board.clone());
            }
            i = i + 1;
        }
        None
    }

    /// Inserts a board under a fresh id.
    pub fn insert_board(
        &mut self,
        guild_id: u64,
        channel_id: u64,
        reaction_key: ReactionKey,
        threshold: u64,
    ) -> (inserted: Result<Board, StoreError>)
        requires
            old(self).wf(),
            threshold >= 1,
        ensures
            final(self).wf(),
            (final(self)@, inserted_view(inserted)) == old(self)@.insert_board(
                guild_id,
                channel_id,
                reaction_key@,
                threshold,
            ),
    {
        if self.find_board(guild_id, &reaction_key).is_some() {
            return Err(StoreError::Conflict);
        }
        if self.next_id == u64::MAX {
            return Err(StoreError::Unavailable);
        }
        let board = Board { id: self.next_id, guild_id, channel_id, reaction_key, threshold };
        let copy = board.clone();
        proof {
            lemma_board_pushed(self.boards@, self.board_index@, board);
            self.board_index@ = self.board_index@.insert(board_key(board@), board@);
        }
        self.boards.push(board);
        self.next_id = self.next_id + 1;
        Ok(copy)
    }

    /// Looks up the mapping of `source_message_id` on `board_id`.
    pub fn find_mapping(&self, source_message_id: u64, board_id: u64) -> (found: Option<
        MessageMapping,
    >)
        requires
            self.wf(),
        ensures
            found == self@.find_mapping(source_message_id, board_id),
    {
        match self.locate_mapping(source_message_id, board_id) {
            Some(i) => Some(self.mappings[i]),
            None => None,
        }
    }

    fn locate_mapping(&self, source_message_id: u64, board_id: u64) -> (at: Option<usize>)
        requires
            self.wf(),
        ensures
            at is Some <==> self@.mappings.contains_key((source_message_id, board_id)),
            at matches Some(i) ==> i < self.mappings@.len() && mapping_row_key(
                self.mappings@,
                i as int,
            ) == (source_message_id, board_id),
    {
        let mut i: usize = 0;
        while i < self.mappings.len()
            invariant
                self.wf(),
                i <= self.mappings.len(),
                forall|j: int|
                    0 <= j < i ==> #[trigger] mapping_row_key(self.mappings@, j) != (
                        source_message_id,
                        board_id,
                    ),
            decreases self.mappings.len() - i,
        {
            let mapping = &self.mappings[i];
            if mapping.source_message_id == source_message_id && mapping.board_id == board_id {
                assert(mapping_row_key(self.mappings@, i as int) == (source_message_id, board_id));
                return Some(i);
            }
            i = i + 1;
        }
        None
    }

    /// Records that `board_message_id` mirrors `source_message_id` on
    /// `board_id`.
    pub fn insert_mapping(&mut self, source_message_id: u64, board_message_id: u64, board_id: u64)
        -> (inserted: Result<(), StoreError>)
        requires
            old(self).wf(),
        ensures
            final(self).wf(),
            (final(self)@, inserted) == old(self)@.insert_mapping(
                source_message_id,
                board_message_id,
                board_id,
            ),
    {
        if self.locate_mapping(source_message_id, board_id).is_some() {
            return Err(StoreError::Conflict);
        }
        let mapping = MessageMapping { source_message_id, board_message_id, board_id };
        proof {
            lemma_mapping_pushed(self.mappings@, self.mapping_index@, mapping);
            self.mapping_index@ = self.mapping_index@.insert(mapping_key(mapping), mapping);
        }
        self.mappings.push(mapping);
        Ok(())
    }

    /// Removes the mapping of `source_message_id` on `board_id` and tells
    /// whether a row was removed. That there was none is no error.
    pub fn delete_mapping(&mut self, source_message_id: u64, board_id: u64) -> (deleted: Result<
        bool,
        StoreError,
    >)
        requires
            old(self).wf(),
        ensures
            final(self).wf(),
            (final(self)@, deleted) == old(self)@.delete_mapping(source_message_id, board_id),
    {
        match self.locate_mapping(source_message_id, board_id) {
            None => {
                assert(self@.mappings.remove((source_message_id, board_id)) =~= self@.mappings);
                Ok(false)
            },
            Some(at) => {
                proof {
                    lemma_mapping_removed(self.mappings@, self.mapping_index@, at as int);
                    self.mapping_index@ = self.mapping_index@.remove(
                        (source_message_id, board_id),
                    );
                }
                self.mappings.remove(at);
                Ok(true)
            },
        }
    }
}

} // verus!
