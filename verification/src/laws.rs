//! What holds of the board and of the interaction whatever the user does.

use vstd::prelude::*;
use vstd::multiset::Multiset;
use vstd::seq_lib::{lemma_multiset_commutative, to_multiset_build, to_multiset_contains, to_multiset_len, to_multiset_remove};
use crate::board::{BoardError, Effect};
use crate::model::{Columns, all_labelled, all_tasks, distinct_tasks, holds_task, seeded_columns, well_formed, with_appended, with_edited, with_moved, with_removed};
use crate::protocol::{ControllerView, DragState, IntentView, Place, SelectionView, place_after_removal, task_at};
use crate::store::{StoreView, holds_board, load_failure, loaded_columns};
use crate::task::TaskView;

verus! {

/// Whatever intents are handled, in whatever order, the board keeps its
/// three columns, and the selection and the drag keep to tasks of the
/// board. Where every task had a label at the start, every task has one
/// ever after.
pub proof fn lemma_reachable_states_are_sound(start: ControllerView, intents: Seq<IntentView>)
    requires
        start.well_formed(),
        start.references_hold(),
    ensures
        start.after_all(intents).well_formed(),
        start.after_all(intents).references_hold(),
        all_labelled(start.board) ==> all_labelled(start.after_all(intents).board),
    decreases intents.len(),
{
    if intents.len() > 0 {
        lemma_reachable_states_are_sound(start, intents.drop_last());
        lemma_references_stay_on_the_board(start.after_all(intents.drop_last()), intents.last());
        if all_labelled(start.board) {
            lemma_intents_keep_tasks_labelled(start.after_all(intents.drop_last()), intents.last());
        }
    }
}

/// No intent leaves a task without a label on the board: a task comes to
/// the board with a label or not at all.
pub proof fn lemma_intents_keep_tasks_labelled(state: ControllerView, intent: IntentView)
    requires
        state.well_formed(),
        all_labelled(state.board),
    ensures
        all_labelled(state.after(intent).board),
{
    match intent {
        IntentView::Create(task) => {
            if task.label.len() > 0 {
                lemma_append_keeps_tasks_labelled(state.board, 0, task);
            }
        },
        IntentView::SubmitDraft => {
            if state.draft.label.len() > 0 {
                lemma_append_keeps_tasks_labelled(state.board, 0, state.draft);
            }
        },
        IntentView::Remove(column, row) => {
            if holds_task(state.board, column as int, row as int) {
                lemma_removal_keeps_tasks_labelled(state.board, column as int, row as int);
            }
        },
        IntentView::CommitEdit => {
            match state.selection {
                Some(selection) => {
                    if task_at(state.board, selection.place) {
                        let column = selection.place.column as int;
                        let row = selection.place.row as int;
                        lemma_removal_keeps_tasks_labelled(state.board, column, row);
                        if selection.buffer.label.len() > 0 {
                            lemma_append_keeps_tasks_labelled(
                                with_removed(state.board, column, row),
                                column,
                                selection.buffer,
                            );
                        }
                    }
                },
                None => {},
            }
        },
        IntentView::EndDrag(released) => {
            lemma_drop_keeps_tasks_labelled(state, released);
        },
        IntentView::Pointer(sample) => {
            match sample.dragged {
                Some(place) => {
                    let begun = state.begin_drag(place.column, place.row).0;
                    let over = match sample.hovered {
                        Some(column) => begun.hover_column(column),
                        None => begun.leave_columns(),
                    };
                    lemma_drop_keeps_tasks_labelled(over, sample.released);
                },
                None => {
                    lemma_drop_keeps_tasks_labelled(state, false);
                },
            }
        },
        _ => {},
    }
}

/// The board of a first start holds labelled tasks only.
pub proof fn lemma_seeded_tasks_are_labelled(date: Seq<char>)
    ensures
        all_labelled(seeded_columns(date)),
{
    reveal_strlit("Education Rust");
    reveal_strlit("Education C++");
    reveal_strlit("Education Assembler");
    reveal_strlit("Education English");
    reveal_strlit("Education Painting");
    assert forall|column: int, row: int| #[trigger]
        holds_task(seeded_columns(date), column, row) implies seeded_columns(date)[column][row].label.len()
        > 0 by {
        assert(column == 0);
        assert(0 <= row < 5);
    }
}

/// A labelled task added to a board of labelled tasks leaves a board of
/// labelled tasks.
proof fn lemma_append_keeps_tasks_labelled(columns: Columns, column: int, task: TaskView)
    requires
        all_labelled(columns),
        0 <= column < columns.len(),
        task.label.len() > 0,
    ensures
        all_labelled(with_appended(columns, column, task)),
{
    let after = with_appended(columns, column, task);
    assert forall|c: int, r: int| #[trigger] holds_task(after, c, r) implies after[c][r].label.len() > 0 by {
        if c == column && r == columns[column].len() {
        } else {
            assert(holds_task(columns, c, r));
        }
    }
}

/// A board of labelled tasks is one still when a task has left it.
proof fn lemma_removal_keeps_tasks_labelled(columns: Columns, column: int, row: int)
    requires
        all_labelled(columns),
        holds_task(columns, column, row),
    ensures
        all_labelled(with_removed(columns, column, row)),
{
    let after = with_removed(columns, column, row);
    assert forall|c: int, r: int| #[trigger] holds_task(after, c, r) implies after[c][r].label.len() > 0 by {
        if c == column && r >= row {
            assert(holds_task(columns, c, r + 1));
        } else {
            assert(holds_task(columns, c, r));
        }
    }
}

/// The end of a drag leaves a board of labelled tasks as one.
proof fn lemma_drop_keeps_tasks_labelled(state: ControllerView, released: bool)
    requires
        state.well_formed(),
        all_labelled(state.board),
    ensures
        all_labelled(state.end_drag(released).0.board),
{
    match state.drag {
        Some(DragState { source: Some(place), target: Some(target) }) => {
            if released && task_at(state.board, place) && target < 3 {
                let column = place.column as int;
                let row = place.row as int;
                assert(holds_task(state.board, column, row));
                lemma_removal_keeps_tasks_labelled(state.board, column, row);
                lemma_append_keeps_tasks_labelled(
                    with_removed(state.board, column, row),
                    target as int,
                    state.board[column][row],
                );
            }
        },
        _ => {},
    }
}

/// No intent takes the board's three columns away, and none leaves the
/// selection or the drag at a place without a task.
pub proof fn lemma_references_stay_on_the_board(state: ControllerView, intent: IntentView)
    requires
        state.well_formed(),
    ensures
        state.after(intent).well_formed(),
        state.references_hold() ==> state.after(intent).references_hold(),
{
    match intent {
        IntentView::Create(task) => {
            lemma_references_survive_append(state, state.create(task).0, task);
        },
        IntentView::SubmitDraft => {
            lemma_references_survive_append(state, state.submit_draft().0, state.draft);
        },
        IntentView::Remove(column, row) => {
            let gone = Place { column, row };
            if task_at(state.board, gone) {
                lemma_references_survive_removal(state, gone);
            }
        },
        IntentView::CommitEdit => {
            match state.selection {
                Some(selection) => {
                    if task_at(state.board, selection.place) {
                        lemma_references_survive_edit(state, selection);
                    }
                },
                None => {},
            }
        },
        IntentView::EndDrag(released) => {
            lemma_references_survive_drop(state, released);
        },
        IntentView::Pointer(sample) => {
            match sample.dragged {
                Some(place) => {
                    let begun = state.begin_drag(place.column, place.row).0;
                    let over = match sample.hovered {
                        Some(column) => begun.hover_column(column),
                        None => begun.leave_columns(),
                    };
                    lemma_references_survive_drop(over, sample.released);
                },
                None => {
                    lemma_references_survive_drop(state, false);
                },
            }
        },
        _ => {},
    }
}

/// A task that is on the board is on it, at the same place, after another
/// one was added at the end of a column.
proof fn lemma_references_survive_append(before: ControllerView, after: ControllerView, task: TaskView)
    requires
        before.well_formed(),
        after.selection == before.selection,
        after.drag == before.drag,
        after.board == before.board || after.board == with_appended(before.board, 0, task),
    ensures
        after.well_formed(),
        before.references_hold() ==> after.references_hold(),
{
}

/// The place that follows a task once another one has left the board is
/// the place of a task.
proof fn lemma_place_survives_removal(columns: Columns, place: Place, gone: Place)
    requires
        task_at(columns, place),
        task_at(columns, gone),
    ensures
        place_after_removal(place, gone) matches Some(kept) ==> task_at(
            with_removed(columns, gone.column as int, gone.row as int),
            kept,
        ),
{
}

/// The removal of a task leaves the selection and the drag at places of
/// tasks.
proof fn lemma_references_survive_removal(state: ControllerView, gone: Place)
    requires
        state.well_formed(),
        task_at(state.board, gone),
    ensures
        state.remove(gone.column, gone.row).0.well_formed(),
        state.references_hold() ==> state.remove(gone.column, gone.row).0.references_hold(),
{
    if state.references_hold() {
        match state.selection {
            Some(selection) => {
                lemma_place_survives_removal(state.board, selection.place, gone);
            },
            None => {},
        }
        match state.drag {
            Some(DragState { source: Some(place), .. }) => {
                lemma_place_survives_removal(state.board, place, gone);
            },
            _ => {},
        }
    }
}

/// A committed edit leaves the drag at the place of a task.
proof fn lemma_references_survive_edit(state: ControllerView, selection: SelectionView)
    requires
        state.well_formed(),
        state.selection == Some(selection),
        task_at(state.board, selection.place),
    ensures
        state.commit_edit().0.well_formed(),
        state.references_hold() ==> state.commit_edit().0.references_hold(),
{
    if state.references_hold() {
        match state.drag {
            Some(DragState { source: Some(place), .. }) => {
                lemma_place_survives_removal(state.board, place, selection.place);
            },
            _ => {},
        }
    }
}

/// A drop leaves the selection at the place of a task.
proof fn lemma_selection_survives_move(state: ControllerView, source: Place, target: usize)
    requires
        state.well_formed(),
        state.drag matches Some(DragState { source: Some(place), target: Some(over) }) && place == source
            && over == target,
        task_at(state.board, source),
        target < 3,
    ensures
        state.end_drag(true).0.well_formed(),
        state.references_hold() ==> state.end_drag(true).0.references_hold(),
{
    if state.references_hold() {
        match state.selection {
            Some(selection) => {
                lemma_place_survives_removal(state.board, selection.place, source);
            },
            None => {},
        }
    }
}

/// The end of a drag keeps the board's three columns and leaves the
/// selection at the place of a task.
proof fn lemma_references_survive_drop(state: ControllerView, released: bool)
    requires
        state.well_formed(),
    ensures
        state.end_drag(released).0.well_formed(),
        state.references_hold() ==> state.end_drag(released).0.references_hold(),
{
    match state.drag {
        Some(DragState { source: Some(place), target: Some(target) }) => {
            if released && task_at(state.board, place) && target < 3 {
                lemma_selection_survives_move(state, place, target);
            }
        },
        _ => {},
    }
}

/// The task that `intent` takes off the board in `state`, if it takes one.
pub open spec fn taken_off(state: ControllerView, intent: IntentView) -> Option<TaskView> {
    match intent {
        IntentView::Remove(column, row) if holds_task(state.board, column as int, row as int) => Some(
            state.board[column as int][row as int],
        ),
        IntentView::CommitEdit => match state.selection {
            Some(selection) if task_at(state.board, selection.place) => Some(
                state.board[selection.place.column as int][selection.place.row as int],
            ),
            _ => None,
        },
        _ => None,
    }
}

/// The task that `intent` puts on the board in `state`, if it puts one.
pub open spec fn put_on(state: ControllerView, intent: IntentView) -> Option<TaskView> {
    match intent {
        IntentView::Create(task) if task.label.len() > 0 => Some(task),
        IntentView::SubmitDraft if state.draft.label.len() > 0 => Some(state.draft),
        IntentView::CommitEdit => match state.selection {
            Some(selection) if task_at(state.board, selection.place) && selection.buffer.label.len() > 0 => Some(
                selection.buffer,
            ),
            _ => None,
        },
        _ => None,
    }
}

/// The tasks of a board without the one that is taken off and with the one
/// that is put on.
pub open spec fn tasks_after(
    tasks: Multiset<TaskView>,
    taken: Option<TaskView>,
    put: Option<TaskView>,
) -> Multiset<TaskView> {
    let left = match taken {
        Some(task) => tasks.remove(task),
        None => tasks,
    };
    match put {
        Some(task) => left.insert(task),
        None => left,
    }
}

/// No intent loses a task or doubles one. The tasks on the board after an
/// intent are the tasks before it, but for the one task that the intent
/// itself takes off and the one that it puts on; a drag, however it ends,
/// changes nothing in them.
pub proof fn lemma_intents_account_for_every_task(state: ControllerView, intent: IntentView)
    requires
        state.well_formed(),
    ensures
        all_tasks(state.after(intent).board).to_multiset() == tasks_after(
            all_tasks(state.board).to_multiset(),
            taken_off(state, intent),
            put_on(state, intent),
        ),
        taken_off(state, intent) matches Some(task) ==> all_tasks(state.board).to_multiset().count(task) > 0,
{
    match intent {
        IntentView::Create(task) => {
            if task.label.len() > 0 {
                lemma_append_adds_one_task(state.board, 0, task);
            }
        },
        IntentView::SubmitDraft => {
            if state.draft.label.len() > 0 {
                lemma_append_adds_one_task(state.board, 0, state.draft);
            }
        },
        IntentView::Remove(column, row) => {
            if holds_task(state.board, column as int, row as int) {
                lemma_remove_takes_one_task(state.board, column as int, row as int);
            }
        },
        IntentView::CommitEdit => {
            match state.selection {
                Some(selection) => {
                    if task_at(state.board, selection.place) {
                        lemma_edit_replaces_one_task(
                            state.board,
                            selection.place.column as int,
                            selection.place.row as int,
                            selection.buffer,
                        );
                    }
                },
                None => {},
            }
        },
        IntentView::EndDrag(released) => {
            lemma_drop_loses_no_task(state, released);
        },
        IntentView::Pointer(sample) => {
            match sample.dragged {
                Some(place) => {
                    let begun = state.begin_drag(place.column, place.row).0;
                    let over = match sample.hovered {
                        Some(column) => begun.hover_column(column),
                        None => begun.leave_columns(),
                    };
                    lemma_drop_loses_no_task(over, sample.released);
                },
                None => {
                    lemma_drop_loses_no_task(state, false);
                },
            }
        },
        _ => {},
    }
}

/// The end of a drag leaves every task on the board as often as it was.
proof fn lemma_drop_loses_no_task(state: ControllerView, released: bool)
    requires
        state.well_formed(),
    ensures
        all_tasks(state.end_drag(released).0.board).to_multiset() == all_tasks(state.board).to_multiset(),
{
    match state.drag {
        Some(DragState { source: Some(place), target: Some(target) }) => {
            if released && task_at(state.board, place) && target < 3 {
                lemma_move_is_a_transfer(state.board, place.column as int, place.row as int, target as int);
            }
        },
        _ => {},
    }
}

/// The tasks of a board after one was added are the tasks before, and the
/// new one once more.
pub proof fn lemma_append_adds_one_task(columns: Columns, column: int, task: TaskView)
    requires
        well_formed(columns),
        0 <= column < 3,
    ensures
        well_formed(with_appended(columns, column, task)),
        all_tasks(with_appended(columns, column, task)).to_multiset() == all_tasks(
            columns,
        ).to_multiset().insert(task),
{
    let after = with_appended(columns, column, task);
    to_multiset_build(columns[column], task);
    lemma_tasks_by_column(columns);
    lemma_tasks_by_column(after);
}

/// The tasks of a board after one was removed are the tasks before, and
/// the removed one once less.
pub proof fn lemma_remove_takes_one_task(columns: Columns, column: int, row: int)
    requires
        well_formed(columns),
        holds_task(columns, column, row),
    ensures
        well_formed(with_removed(columns, column, row)),
        all_tasks(with_removed(columns, column, row)).to_multiset() == all_tasks(
            columns,
        ).to_multiset().remove(columns[column][row]),
        all_tasks(columns).to_multiset().count(columns[column][row]) > 0,
{
    let after = with_removed(columns, column, row);
    to_multiset_remove(columns[column], row);
    lemma_tasks_by_column(columns);
    lemma_tasks_by_column(after);
    to_multiset_contains(columns[column], columns[column][row]);
}

/// A move neither loses a task nor doubles one: every task is on the board
/// as often after the move as before it. The moved task has left its place
/// and is the last of the column it went to.
pub proof fn lemma_move_is_a_transfer(columns: Columns, source: int, row: int, dest: int)
    requires
        well_formed(columns),
        holds_task(columns, source, row),
        0 <= dest < 3,
    ensures
        well_formed(with_moved(columns, source, row, dest)),
        all_tasks(with_moved(columns, source, row, dest)).to_multiset() == all_tasks(
            columns,
        ).to_multiset(),
        all_tasks(with_moved(columns, source, row, dest)).len() == all_tasks(columns).len(),
        with_moved(columns, source, row, dest)[dest].last() == columns[source][row],
        source != dest ==> with_moved(columns, source, row, dest)[source] == columns[source].remove(row)
            && with_moved(columns, source, row, dest)[dest] == columns[dest].push(columns[source][row]),
        source == dest ==> with_moved(columns, source, row, dest)[source] == columns[source].remove(
            row,
        ).push(columns[source][row]),
        forall|other: int|
            0 <= other < 3 && other != source && other != dest ==> with_moved(columns, source, row, dest)[other]
                == columns[other],
{
    let task = columns[source][row];
    let without = with_removed(columns, source, row);
    lemma_remove_takes_one_task(columns, source, row);
    lemma_append_adds_one_task(without, dest, task);
    to_multiset_len(all_tasks(with_moved(columns, source, row, dest)));
    to_multiset_len(all_tasks(columns));
}

/// An edit with a labelled task takes the old task away and adds the new
/// one; an edit with a task without a label only takes the old one away.
pub proof fn lemma_edit_replaces_one_task(columns: Columns, column: int, row: int, task: TaskView)
    requires
        well_formed(columns),
        holds_task(columns, column, row),
    ensures
        well_formed(with_edited(columns, column, row, task)),
        task.label.len() > 0 ==> all_tasks(with_edited(columns, column, row, task)).to_multiset()
            == all_tasks(columns).to_multiset().remove(columns[column][row]).insert(task),
        task.label.len() == 0 ==> all_tasks(with_edited(columns, column, row, task)).to_multiset()
            == all_tasks(columns).to_multiset().remove(columns[column][row]),
        all_tasks(columns).to_multiset().count(columns[column][row]) > 0,
{
    lemma_remove_takes_one_task(columns, column, row);
    if task.label.len() > 0 {
        lemma_append_adds_one_task(with_removed(columns, column, row), column, task);
    }
}

/// The tasks of a board are those of its three columns together.
proof fn lemma_tasks_by_column(columns: Columns)
    requires
        well_formed(columns),
    ensures
        all_tasks(columns).to_multiset() == columns[0].to_multiset().add(
            columns[1].to_multiset(),
        ).add(columns[2].to_multiset()),
{
    lemma_multiset_commutative(columns[0], columns[1]);
    lemma_multiset_commutative(columns[0] + columns[1], columns[2]);
}

/// On a board whose tasks all differ, a task stands at one place only: in
/// exactly one column, and once in it.
pub proof fn lemma_distinct_task_has_one_place(
    columns: Columns,
    column: int,
    row: int,
    other_column: int,
    other_row: int,
)
    requires
        well_formed(columns),
        distinct_tasks(columns),
        holds_task(columns, column, row),
        holds_task(columns, other_column, other_row),
        columns[column][row] == columns[other_column][other_row],
    ensures
        column == other_column,
        row == other_row,
{
    let first = index_among_all(columns, column, row);
    let second = index_among_all(columns, other_column, other_row);
    assert(all_tasks(columns)[first] == columns[column][row]);
    assert(all_tasks(columns)[second] == columns[other_column][other_row]);
}

/// Where the task at `row` of `column` stands among all tasks of the board.
spec fn index_among_all(columns: Columns, column: int, row: int) -> int {
    if column == 0 {
        row
    } else if column == 1 {
        columns[0].len() + row
    } else {
        columns[0].len() + columns[1].len() + row
    }
}

/// The tasks of a board stay different from each other under every intent
/// that puts no task on the board that is on it already. So on a board
/// that began with different tasks and was given different tasks only,
/// every task is in exactly one column.
pub proof fn lemma_intents_keep_tasks_distinct(state: ControllerView, intent: IntentView)
    requires
        state.well_formed(),
        distinct_tasks(state.board),
        put_on(state, intent) matches Some(task) ==> tasks_after(
            all_tasks(state.board).to_multiset(),
            taken_off(state, intent),
            None,
        ).count(task) == 0,
    ensures
        distinct_tasks(state.after(intent).board),
{
    broadcast use vstd::multiset::group_multiset_axioms;

    let before = all_tasks(state.board);
    let after = all_tasks(state.after(intent).board);
    lemma_intents_account_for_every_task(state, intent);
    before.lemma_multiset_has_no_duplicates();
    assert forall|task: TaskView| after.to_multiset().contains(task) implies after.to_multiset().count(task)
        == 1 by {
        assert(before.to_multiset().count(task) <= 1);
    }
    after.lemma_multiset_has_no_duplicates_conv();
}

/// Whenever the board changes, a write of it is asked for: an intent that
/// is refused, or handled without a write, leaves the board as it was.
/// Typing into a form asks for no write, and no intent fails for the
/// store's sake.
pub proof fn lemma_every_change_asks_for_a_write(state: ControllerView, intent: IntentView)
    ensures
        state.handle(intent).0.board != state.board ==> state.handle(intent).1 == Ok::<Effect, BoardError>(
            Effect::Persist,
        ),
        intent is SetDraft || intent is SetBuffer ==> state.handle(intent).1 != Ok::<Effect, BoardError>(
            Effect::Persist,
        ),
        state.handle(intent).1 != Err::<Effect, BoardError>(BoardError::PersistenceFailure),
{
}

/// What was saved is what loading gives back, and loading it asks for no
/// further write.
pub proof fn lemma_load_returns_what_was_saved(board: Columns, date: Seq<char>)
    requires
        well_formed(board),
    ensures
        loaded_columns(StoreView::Found(board), date) == board,
        holds_board(StoreView::Found(board)),
        load_failure(StoreView::Found(board)) is None,
{
}

/// Where the store holds no board, loading gives the board of a first
/// start: five tasks in the first column and none in the other two. Once
/// that board is written, loading gives the same board again, whatever the
/// day.
pub proof fn lemma_seeding_settles(stored: StoreView, first_day: Seq<char>, later_day: Seq<char>)
    requires
        !holds_board(stored),
    ensures
        loaded_columns(stored, first_day) == seeded_columns(first_day),
        well_formed(seeded_columns(first_day)),
        seeded_columns(first_day)[0].len() == 5,
        seeded_columns(first_day)[1].len() == 0,
        seeded_columns(first_day)[2].len() == 0,
        holds_board(StoreView::Found(seeded_columns(first_day))),
        loaded_columns(StoreView::Found(seeded_columns(first_day)), later_day) == seeded_columns(
            first_day,
        ),
{
}

/// A drag that begins and ends without a release leaves every column as it
/// was, and leaves no drag behind.
pub proof fn lemma_cancelled_drag_changes_no_column(state: ControllerView, column: usize, row: usize)
    ensures
        state.begin_drag(column, row).0.end_drag(false).0.board == state.board,
        state.begin_drag(column, row).0.end_drag(false).0.drag is None,
        state.begin_drag(column, row).0.end_drag(false).1 == Ok::<Effect, BoardError>(Effect::Unchanged),
{
}

/// A drop moves the very task that the drag began with, even where tasks
/// above it were removed in between; and where that task itself was
/// removed in between, the drop is refused as stale and moves nothing.
pub proof fn lemma_drop_keeps_to_the_dragged_task(
    state: ControllerView,
    dragged: Place,
    removed: Place,
    target: usize,
)
    requires
        state.well_formed(),
        state.drag is None,
        task_at(state.board, dragged),
        task_at(state.board, removed),
        target < 3,
    ensures
        ({
            let task = state.board[dragged.column as int][dragged.row as int];
            let before_drop = state.begin_drag(dragged.column, dragged.row).0.hover_column(target).remove(
                removed.column,
                removed.row,
            ).0;
            let (after, outcome) = before_drop.end_drag(true);
            &&& after.drag is None
            &&& removed == dragged ==> outcome == Err::<Effect, BoardError>(BoardError::StaleReference)
                && after.board == before_drop.board
            &&& removed != dragged ==> outcome == Ok::<Effect, BoardError>(Effect::Persist)
                && after.board[target as int].last() == task
        }),
{
}

/// Selecting a task, giving the buffer a new label and committing puts the
/// relabelled task at the end of the task's column, takes the old task
/// from its place and leaves the column as long as it was. The other
/// columns stay as they were and nothing is selected any more.
pub proof fn lemma_edit_then_commit(state: ControllerView, column: usize, row: usize, label: Seq<char>)
    requires
        state.well_formed(),
        holds_task(state.board, column as int, row as int),
        label.len() > 0,
    ensures
        ({
            let old_task = state.board[column as int][row as int];
            let new_task = TaskView { label: label, ..old_task };
            let after = state.select_for_edit(column, row).0.set_buffer(new_task).0.commit_edit().0;
            &&& after.board[column as int] == state.board[column as int].remove(row as int).push(new_task)
            &&& after.board[column as int].len() == state.board[column as int].len()
            &&& after.board[column as int].last().label == label
            &&& forall|other: int| 0 <= other < 3 && other != column ==> after.board[other] == state.board[other]
            &&& after.selection is None
            &&& after.well_formed()
        }),
{
}

} // verus!
