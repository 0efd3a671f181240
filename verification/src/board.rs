//! The board: three columns of tasks and the only operations that change
//! them.

use vstd::prelude::*;
use crate::clock::{is_day_stamp, today_stamp};
use crate::model::{Columns, COLUMN_COUNT, holds_task, seeded_columns, well_formed, with_appended, with_edited, with_moved, with_removed};
use crate::task::{Task, TaskView};

verus! {

/// Why an operation on the board was not carried out. The board is the same
/// after a refused operation as before it.
#[derive(Debug, Clone, Copy, PartialEq, Eq, Structural)]
pub enum BoardError {
    /// The task has no label.
    ValidationRejected,
    /// No such column, or no such row in the column.
    OutOfRange,
    /// The task that was selected or dragged is no longer there.
    StaleReference,
    /// The store could not be read or written. No operation on the board
    /// fails with it: loading reports it, and falls back to a seeded board.
    PersistenceFailure,
}

/// What the caller owes the store after an operation was carried out.
#[derive(Debug, Clone, Copy, PartialEq, Eq, Structural)]
pub enum Effect {
    /// The board is as it was: there is nothing to write.
    Unchanged,
    /// The board has changed: all of it is to be written to the store.
    Persist,
}

/// The tasks of one column, as mathematics.
pub open spec fn column_view(tasks: Seq<Task>) -> Seq<TaskView> {
    tasks.map_values(|task: Task| task@)
}

/// The columns of a board, as mathematics.
pub open spec fn columns_view(columns: Seq<Vec<Task>>) -> Columns {
    columns.map_values(|column: Vec<Task>| column_view(column@))
}

/// Three ordered columns of tasks: planned, in progress and done.
#[derive(Debug)]
pub struct Board {
    columns: Vec<Vec<Task>>,
}

impl View for Board {
    type V = Columns;

    closed spec fn view(&self) -> Columns {
        columns_view(self.columns@)
    }
}

impl Board {
    /// Every board has exactly three columns.
    #[verifier::type_invariant]
    pub closed spec fn three_columns(&self) -> bool {
        self.columns@.len() == COLUMN_COUNT
    }

    /// A board without tasks.
    pub fn empty() -> (board: Board)
        ensures
            board@ == seq![Seq::<TaskView>::empty(), Seq::<TaskView>::empty(), Seq::<TaskView>::empty()],
    {
        let mut columns: Vec<Vec<Task>> = Vec::new();
        columns.push(Vec::new());
        columns.push(Vec::new());
        columns.push(Vec::new());
        let board = Board { columns };
        assert(board@ =~~= seq![Seq::<TaskView>::empty(), Seq::<TaskView>::empty(), Seq::<TaskView>::empty()]);
        board
    }

    /// What the type's invariant means for the view.
    pub proof fn lemma_three_columns(&self)
        requires
            self.three_columns(),
        ensures
            well_formed(self@),
    {
    }

    /// The board that a first start shows: five sample tasks dated `date` in
    /// the first column, nothing in the other two.
    pub fn seeded(date: &str) -> (board: Board)
        ensures
            board@ == seeded_columns(date@),
    {
        let mut planned: Vec<Task> = Vec::new();
        planned.push(Task::new("Education Rust", date, "0h:0m"));
        planned.push(Task::new("Education C++", date, "0h:0m"));
        planned.push(Task::new("Education Assembler", date, "0h:0m"));
        planned.push(Task::new("Education English", date, "0h:0m"));
        planned.push(Task::new("Education Painting", date, "0h:0m"));
        let mut columns: Vec<Vec<Task>> = Vec::new();
        columns.push(planned);
        columns.push(Vec::new());
        columns.push(Vec::new());
        let board = Board { columns };
        assert(board@ =~~= seeded_columns(date@));
        board
    }

    /// The board made of the given columns, if there are exactly three.
    pub fn from_columns(columns: Vec<Vec<Task>>) -> (board: Option<Board>)
        ensures
            columns@.len() == COLUMN_COUNT ==> board is Some && board->0@ == columns_view(columns@),
            columns@.len() != COLUMN_COUNT ==> board is None,
    {
        if columns.len() == COLUMN_COUNT {
            Some(Board { columns })
        } else {
            None
        }
    }

    /// The tasks of `column` in display order, if there is such a column.
    pub fn column(&self, column: usize) -> (tasks: Option<&Vec<Task>>)
        ensures
            column < COLUMN_COUNT ==> tasks is Some && column_view(tasks->0@) == self@[column as int],
            column >= COLUMN_COUNT ==> tasks is None,
    {
        proof {
            use_type_invariant(self);
        }
        if column < self.columns.len() {
            Some(&self.columns[column])
        } else {
            None
        }
    }

    /// The task at `row` of `column`, if there is one.
    pub fn task(&self, column: usize, row: usize) -> (task: Option<&Task>)
        ensures
            holds_task(self@, column as int, row as int) ==> task is Some && task->0@ == self@[column as int][row as int],
            !holds_task(self@, column as int, row as int) ==> task is None,
    {
        if column < self.columns.len() && row < self.columns[column].len() {
            Some(&self.columns[column][row])
        } else {
            None
        }
    }

    /// Adds `task` at the end of the first column; the board is then to be
    /// written. A task without a label is refused.
    pub fn create(&mut self, task: Task) -> (outcome: Result<Effect, BoardError>)
        ensures
            well_formed(final(self)@),
            task@.label.len() > 0 ==> outcome == Ok::<Effect, BoardError>(Effect::Persist)
                && final(self)@ == with_appended(old(self)@, 0, task@),
            task@.label.len() == 0 ==> outcome == Err::<Effect, BoardError>(BoardError::ValidationRejected)
                && final(self)@ == old(self)@,
    {
        proof {
            use_type_invariant(&*self);
        }
        if !task.has_label() {
            return Err(BoardError::ValidationRejected);
        }
        self.columns[0].push(task);
        assert(self@ =~~= with_appended(old(self)@, 0, task@));
        Ok(Effect::Persist)
    }

    /// Takes the task at `row` of `column` off the board; the board is then
    /// to be written.
    pub fn remove(&mut self, column: usize, row: usize) -> (outcome: Result<Effect, BoardError>)
        ensures
            well_formed(final(self)@),
            holds_task(old(self)@, column as int, row as int) ==> outcome == Ok::<Effect, BoardError>(
                Effect::Persist,
            ) && final(self)@ == with_removed(old(self)@, column as int, row as int),
            !holds_task(old(self)@, column as int, row as int) ==> outcome == Err::<Effect, BoardError>(
                BoardError::OutOfRange,
            ) && final(self)@ == old(self)@,
    {
        proof {
            use_type_invariant(&*self);
        }
        if column >= self.columns.len() || row >= self.columns[column].len() {
            return Err(BoardError::OutOfRange);
        }
        let _ = self.columns[column].remove(row);
        assert(self@ =~~= with_removed(old(self)@, column as int, row as int));
        Ok(Effect::Persist)
    }

    /// Replaces the task at `row` of `column` by `task`, which goes to the
    /// end of the same column. Where `task` has no label the old task is
    /// taken away and nothing is put in its place. Either way the board is
    /// then to be written.
    pub fn edit(&mut self, column: usize, row: usize, task: Task) -> (outcome: Result<Effect, BoardError>)
        ensures
            well_formed(final(self)@),
            holds_task(old(self)@, column as int, row as int) ==> outcome == Ok::<Effect, BoardError>(
                Effect::Persist,
            ) && final(self)@ == with_edited(old(self)@, column as int, row as int, task@),
            !holds_task(old(self)@, column as int, row as int) ==> outcome == Err::<Effect, BoardError>(
                BoardError::OutOfRange,
            ) && final(self)@ == old(self)@,
    {
        proof {
            use_type_invariant(&*self);
        }
        if column >= self.columns.len() || row >= self.columns[column].len() {
            return Err(BoardError::OutOfRange);
        }
        let _ = self.columns[column].remove(row);
        if task.has_label() {
            self.columns[column].push(task);
        }
        assert(self@ =~~= with_edited(old(self)@, column as int, row as int, task@));
        Ok(Effect::Persist)
    }

    /// Moves the task at `row` of `source` to the end of `dest`; the board
    /// is then to be written. The two columns may be the same: the task
    /// then goes to the end of its own column.
    pub fn move_task(&mut self, source: usize, row: usize, dest: usize) -> (outcome: Result<Effect, BoardError>)
        ensures
            well_formed(final(self)@),
            holds_task(old(self)@, source as int, row as int) && dest < COLUMN_COUNT ==> outcome == Ok::<
                Effect,
                BoardError,
            >(Effect::Persist) && final(self)@ == with_moved(
                old(self)@,
                source as int,
                row as int,
                dest as int,
            ),
            !(holds_task(old(self)@, source as int, row as int) && dest < COLUMN_COUNT) ==> outcome == Err::<
                Effect,
                BoardError,
            >(BoardError::OutOfRange) && final(self)@ == old(self)@,
    {
        proof {
            use_type_invariant(&*self);
        }
        if source >= self.columns.len() || row >= self.columns[source].len() || dest
            >= self.columns.len() {
            return Err(BoardError::OutOfRange);
        }
        let task = self.columns[source].remove(row);
        self.columns[dest].push(task);
        assert(self@ =~~= with_moved(old(self)@, source as int, row as int, dest as int));
        Ok(Effect::Persist)
    }
}

impl Clone for Board {
    fn clone(&self) -> (copy: Self)
        ensures
            copy@ == self@,
    {
        proof {
            use_type_invariant(self);
        }
        let mut columns: Vec<Vec<Task>> = Vec::new();
        let mut c: usize = 0;
        while c < self.columns.len()
            invariant
                c <= self.columns@.len(),
                columns@.len() == c,
                forall|i: int|
                    0 <= i < c ==> column_view(#[trigger] columns@[i]@) == column_view(self.columns@[i]@),
            decreases self.columns@.len() - c,
        {
            columns.push(copy_of_column(&self.columns[c]));
            c += 1;
        }
        Board { columns }
    }
}

impl PartialEq for Board {
    fn eq(&self, other: &Self) -> (same: bool) {
        proof {
            use_type_invariant(self);
            use_type_invariant(other);
        }
        let mut c: usize = 0;
        while c < self.columns.len()
            invariant
                c <= self.columns@.len(),
                self.columns@.len() == other.columns@.len(),
                forall|i: int| 0 <= i < c ==> self@[i] == other@[i],
            decreases self.columns@.len() - c,
        {
            if !same_column(&self.columns[c], &other.columns[c]) {
                assert(self@[c as int] != other@[c as int]);
                return false;
            }
            c += 1;
        }
        assert(self@ =~= other@);
        true
    }
}

impl vstd::std_specs::cmp::PartialEqSpecImpl for Board {
    open spec fn obeys_eq_spec() -> bool {
        true
    }

    open spec fn eq_spec(&self, other: &Self) -> bool {
        self@ == other@
    }
}

impl Default for Board {
    /// The seeded board, dated today.
    fn default() -> (board: Board)
        ensures
            exists|date: Seq<char>| is_day_stamp(date) && board@ == seeded_columns(date),
    {
        let date = today_stamp();
        Board::seeded(date.as_str())
    }
}

/// A copy of every task of a column, in order.
pub fn copy_of_column(column: &Vec<Task>) -> (copy: Vec<Task>)
    ensures
        column_view(copy@) == column_view(column@),
{
    let mut copy: Vec<Task> = Vec::new();
    let mut r: usize = 0;
    while r < column.len()
        invariant
            r <= column@.len(),
            copy@.len() == r,
            forall|i: int| 0 <= i < r ==> (#[trigger] copy@[i])@ == column@[i]@,
        decreases column@.len() - r,
    {
        copy.push(column[r].clone());
        r += 1;
    }
    copy
}

/// Whether two columns hold the same tasks in the same order.
pub fn same_column(left: &Vec<Task>, right: &Vec<Task>) -> (same: bool)
    ensures
        same == (column_view(left@) == column_view(right@)),
{
    if left.len() != right.len() {
        return false;
    }
    let mut r: usize = 0;
    while r < left.len()
        invariant
            r <= left@.len(),
            left@.len() == right@.len(),
            forall|i: int| 0 <= i < r ==> (#[trigger] left@[i])@ == right@[i]@,
        decreases left@.len() - r,
    {
        if left[r] != right[r] {
            assert(column_view(left@)[r as int] != column_view(right@)[r as int]);
            return false;
        }
        r += 1;
    }
    assert(column_view(left@) =~= column_view(right@));
    true
}

} // verus!
