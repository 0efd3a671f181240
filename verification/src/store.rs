//! The gateway to the store: what is made of the store's content when the
//! board is loaded, and what is handed over to be written. Reading and
//! writing the store itself is the caller's part.

use vstd::prelude::*;
use crate::board::{Board, BoardError, column_view, columns_view, copy_of_column};
use crate::clock::{is_day_stamp, today_stamp};
use crate::model::{Columns, COLUMN_COUNT, seeded_columns, well_formed};
use crate::task::Task;

verus! {

/// What a look at the store gave.
#[derive(Debug)]
pub enum StoreRead {
    /// There is no store yet.
    Missing,
    /// There is a store, but no columns of tasks could be read from it.
    Unreadable,
    /// The columns of tasks that the store holds.
    Found(Vec<Vec<Task>>),
}

/// What a look at the store gave, as mathematics.
pub enum StoreView {
    Missing,
    Unreadable,
    Found(Columns),
}

impl View for StoreRead {
    type V = StoreView;

    open spec fn view(&self) -> StoreView {
        match self {
            StoreRead::Missing => StoreView::Missing,
            StoreRead::Unreadable => StoreView::Unreadable,
            StoreRead::Found(columns) => StoreView::Found(columns_view(columns@)),
        }
    }
}

/// The store holds a board: three columns of tasks.
pub open spec fn holds_board(stored: StoreView) -> bool {
    stored matches StoreView::Found(columns) && well_formed(columns)
}

/// The board that loading gives: the one in the store, or the board of a
/// first start, dated `date`, where the store holds none.
pub open spec fn loaded_columns(stored: StoreView, date: Seq<char>) -> Columns {
    match stored {
        StoreView::Found(columns) if well_formed(columns) => columns,
        _ => seeded_columns(date),
    }
}

/// What loading reports of the store: nothing where the store holds a
/// board or does not exist yet, a failure where it exists and holds no
/// board.
pub open spec fn load_failure(stored: StoreView) -> Option<BoardError> {
    if holds_board(stored) || stored is Missing {
        None
    } else {
        Some(BoardError::PersistenceFailure)
    }
}

/// A loaded board, whether it has to be written to the store at once, and
/// the failure of the store that loading has made up for, if there was one.
#[derive(Debug)]
pub struct Loaded {
    pub board: Board,
    pub write_back: bool,
    pub failure: Option<BoardError>,
}

/// Makes the board of what was read from the store. Where the store holds
/// no board, the result is the board of a first start, dated `date`, and it
/// is to be written at once, so that the store exists from then on. A store
/// that exists and holds no board is reported as a failure.
pub fn load_or_seed(read: StoreRead, date: &str) -> (loaded: Loaded)
    ensures
        loaded.board@ == loaded_columns(read@, date@),
        loaded.write_back == !holds_board(read@),
        loaded.failure == load_failure(read@),
{
    match read {
        StoreRead::Found(columns) => match Board::from_columns(columns) {
            Some(board) => Loaded { board, write_back: false, failure: None },
            None => Loaded {
                board: Board::seeded(date),
                write_back: true,
                failure: Some(BoardError::PersistenceFailure),
            },
        },
        StoreRead::Unreadable => Loaded {
            board: Board::seeded(date),
            write_back: true,
            failure: Some(BoardError::PersistenceFailure),
        },
        StoreRead::Missing => Loaded { board: Board::seeded(date), write_back: true, failure: None },
    }
}

/// Makes the board of what was read from the store, as [`load_or_seed`]
/// does, with today as the date of a first start.
pub fn load(read: StoreRead) -> (loaded: Loaded)
    ensures
        loaded.write_back == !holds_board(read@),
        loaded.failure == load_failure(read@),
        exists|date: Seq<char>| is_day_stamp(date) && loaded.board@ == loaded_columns(read@, date),
{
    let date = today_stamp();
    load_or_seed(read, date.as_str())
}

/// All of the board as it is to be written to the store: a copy of the
/// three columns with every task.
pub fn save(board: &Board) -> (columns: Vec<Vec<Task>>)
    ensures
        columns@.len() == COLUMN_COUNT,
        columns_view(columns@) == board@,
{
    proof {
        use_type_invariant(board);
        board.lemma_three_columns();
    }
    let mut columns: Vec<Vec<Task>> = Vec::new();
    let mut c: usize = 0;
    while c < COLUMN_COUNT
        invariant
            c <= COLUMN_COUNT,
            well_formed(board@),
            columns@.len() == c,
            forall|i: int| 0 <= i < c ==> column_view(#[trigger] columns@[i]@) == board@[i],
        decreases COLUMN_COUNT - c,
    {
        let copy = match board.column(c) {
            Some(tasks) => copy_of_column(tasks),
            None => Vec::new(),
        };
        columns.push(copy);
        c += 1;
    }
    columns
}

} // verus!
