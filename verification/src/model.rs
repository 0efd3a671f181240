//! The board as mathematics: a sequence of columns, each a sequence of tasks,
//! and the effect of each operation on it.

use vstd::prelude::*;
use crate::task::TaskView;

verus! {

/// The columns of a board, first column first, each in display order.
pub type Columns = Seq<Seq<TaskView>>;

/// How many columns a board has, always.
pub const COLUMN_COUNT: usize = 3;

/// A board has exactly three columns.
pub open spec fn well_formed(columns: Columns) -> bool {
    columns.len() == COLUMN_COUNT
}

/// There is a task at `row` of `column`.
pub open spec fn holds_task(columns: Columns, column: int, row: int) -> bool {
    0 <= column < columns.len() && 0 <= row < columns[column].len()
}

/// The board with `task` added at the end of `column`.
pub open spec fn with_appended(columns: Columns, column: int, task: TaskView) -> Columns {
    columns.update(column, columns[column].push(task))
}

/// The board without the task at `row` of `column`; the tasks below it move up.
pub open spec fn with_removed(columns: Columns, column: int, row: int) -> Columns {
    columns.update(column, columns[column].remove(row))
}

/// The board after the task at `row` of `source` has left its place and
/// joined the end of `dest`.
pub open spec fn with_moved(columns: Columns, source: int, row: int, dest: int) -> Columns {
    with_appended(with_removed(columns, source, row), dest, columns[source][row])
}

/// The board after the task at `row` of `column` has been replaced by
/// `task`, which goes to the end of the same column. A replacement without
/// a label only takes the old task away.
pub open spec fn with_edited(columns: Columns, column: int, row: int, task: TaskView) -> Columns {
    if task.label.len() > 0 {
        with_appended(with_removed(columns, column, row), column, task)
    } else {
        with_removed(columns, column, row)
    }
}

/// Every task on the board has a label.
pub open spec fn all_labelled(columns: Columns) -> bool {
    forall|column: int, row: int| #[trigger]
        holds_task(columns, column, row) ==> columns[column][row].label.len() > 0
}

/// Every task of a three-column board, column by column.
pub open spec fn all_tasks(columns: Columns) -> Seq<TaskView> {
    columns[0] + columns[1] + columns[2]
}

/// No two places of a three-column board hold tasks with the same three
/// texts.
pub open spec fn distinct_tasks(columns: Columns) -> bool {
    all_tasks(columns).no_duplicates()
}

/// The labels of the five sample tasks that a new board starts with.
pub open spec fn sample_labels() -> Seq<Seq<char>> {
    seq![
        "Education Rust"@,
        "Education C++"@,
        "Education Assembler"@,
        "Education English"@,
        "Education Painting"@,
    ]
}

/// The board of a first start: the five sample tasks in the first column,
/// each dated `date` and with no effort spent, and two empty columns.
pub open spec fn seeded_columns(date: Seq<char>) -> Columns {
    seq![
        Seq::new(5, |i: int| TaskView { label: sample_labels()[i], date: date, effort: "0h:0m"@ }),
        Seq::empty(),
        Seq::empty(),
    ]
}

} // verus!
