use task_board::board::{Board, BoardError, Effect};
use task_board::controller::{write_is_due, Controller, Intent};
use task_board::protocol::{DragState, Place, PointerSample};
use task_board::task::Task;

fn names(controller: &Controller, column: usize) -> Vec<String> {
    controller.board().column(column).unwrap().iter().map(|task| task.label.clone()).collect()
}

fn controller_with(planned: &[&str], in_progress: &[&str], done: &[&str]) -> Controller {
    let column = |names: &[&str]| -> Vec<Task> {
        names.iter().map(|name| Task::new(name, "01.02.03", "1h:30m")).collect()
    };
    let board = Board::from_columns(vec![column(planned), column(in_progress), column(done)]).unwrap();
    Controller::new(board, Task::blank("04.05.06".to_string()))
}

#[test]
fn new_controller_selects_and_drags_nothing() {
    let controller = controller_with(&["a"], &[], &[]);
    assert!(controller.selection().is_none());
    assert_eq!(controller.drag(), None);
    assert_eq!(controller.draft(), &Task::new("", "04.05.06", "0h:0m"));
    assert!(!controller.is_selected(0, 0));
}

#[test]
fn create_asks_for_a_write() {
    let mut controller = controller_with(&["a"], &[], &[]);
    assert_eq!(controller.create(Task::new("b", "x", "y")), Ok(Effect::Persist));
    assert_eq!(names(&controller, 0), vec!["a", "b"]);
    assert_eq!(controller.create(Task::new("", "x", "y")), Err(BoardError::ValidationRejected));
    assert_eq!(names(&controller, 0), vec!["a", "b"]);
}

#[test]
fn submitted_draft_joins_the_board_and_loses_its_label() {
    let mut controller = controller_with(&["a"], &[], &[]);
    assert_eq!(controller.submit_draft(), Err(BoardError::ValidationRejected));
    assert_eq!(names(&controller, 0), vec!["a"]);
    controller.set_draft(Task::new("write tests", "07.08.09", "2h:0m"));
    assert_eq!(controller.submit_draft(), Ok(Effect::Persist));
    assert_eq!(controller.board().task(0, 1), Some(&Task::new("write tests", "07.08.09", "2h:0m")));
    assert_eq!(controller.draft(), &Task::new("", "07.08.09", "2h:0m"));
    assert_eq!(controller.submit_draft(), Err(BoardError::ValidationRejected));
    assert_eq!(names(&controller, 0), vec!["a", "write tests"]);
}

#[test]
fn remove_asks_for_a_write() {
    let mut controller = controller_with(&["a", "b"], &[], &[]);
    assert_eq!(controller.remove(0, 0), Ok(Effect::Persist));
    assert_eq!(names(&controller, 0), vec!["b"]);
    assert_eq!(controller.remove(0, 1), Err(BoardError::OutOfRange));
    assert_eq!(controller.remove(5, 0), Err(BoardError::OutOfRange));
    assert_eq!(names(&controller, 0), vec!["b"]);
}

#[test]
fn select_copies_the_task_into_the_buffer() {
    let mut controller = controller_with(&["a"], &["b", "c"], &[]);
    assert_eq!(controller.select_for_edit(1, 1), Ok(()));
    let selection = controller.selection().unwrap();
    assert_eq!(selection.place, Place { column: 1, row: 1 });
    assert_eq!(selection.buffer, Task::new("c", "01.02.03", "1h:30m"));
    assert!(controller.is_selected(1, 1));
    assert!(!controller.is_selected(1, 0));
    assert!(!controller.is_selected(0, 1));
}

#[test]
fn select_where_no_task_is_clears_the_selection() {
    let mut controller = controller_with(&["a"], &[], &[]);
    controller.select_for_edit(0, 0).unwrap();
    assert_eq!(controller.select_for_edit(0, 1), Err(BoardError::OutOfRange));
    assert!(controller.selection().is_none());
    assert_eq!(controller.select_for_edit(3, 0), Err(BoardError::OutOfRange));
    assert!(controller.selection().is_none());
}

#[test]
fn buffer_needs_a_selection() {
    let mut controller = controller_with(&["a"], &[], &[]);
    assert_eq!(controller.set_buffer(Task::new("z", "", "")), Err(BoardError::StaleReference));
    assert!(controller.selection().is_none());
    controller.select_for_edit(0, 0).unwrap();
    assert_eq!(controller.set_buffer(Task::new("z", "1", "2")), Ok(()));
    let selection = controller.selection().unwrap();
    assert_eq!(selection.place, Place { column: 0, row: 0 });
    assert_eq!(selection.buffer, Task::new("z", "1", "2"));
    assert_eq!(names(&controller, 0), vec!["a"]);
}

#[test]
fn edit_then_commit() {
    let mut controller = controller_with(&["p"], &["A", "x", "y"], &["d"]);
    controller.select_for_edit(1, 0).unwrap();
    let mut buffer = controller.selection().unwrap().buffer.clone();
    assert_eq!(buffer.label, "A");
    buffer.label = "B".to_string();
    controller.set_buffer(buffer).unwrap();
    assert_eq!(controller.commit_edit(), Ok(Effect::Persist));
    assert_eq!(names(&controller, 1), vec!["x", "y", "B"]);
    assert_ne!(controller.board().task(1, 0).unwrap().label, "A");
    assert_eq!(controller.board().task(1, 2), Some(&Task::new("B", "01.02.03", "1h:30m")));
    assert_eq!(controller.board().column(1).unwrap().len(), 3);
    assert_eq!(names(&controller, 0), vec!["p"]);
    assert_eq!(names(&controller, 2), vec!["d"]);
    assert!(controller.selection().is_none());
}

#[test]
fn commit_with_an_empty_label_deletes_and_clears_the_selection() {
    let mut controller = controller_with(&["a", "b"], &[], &[]);
    controller.select_for_edit(0, 0).unwrap();
    controller.set_buffer(Task::new("", "01.02.03", "1h:30m")).unwrap();
    assert_eq!(controller.commit_edit(), Ok(Effect::Persist));
    assert_eq!(names(&controller, 0), vec!["b"]);
    assert!(controller.selection().is_none());
}

#[test]
fn commit_without_a_selection_is_stale() {
    let mut controller = controller_with(&["a"], &[], &[]);
    assert_eq!(controller.commit_edit(), Err(BoardError::StaleReference));
    assert_eq!(names(&controller, 0), vec!["a"]);
}

#[test]
fn commit_after_the_task_has_gone_is_stale() {
    let mut controller = controller_with(&["a"], &["b", "c"], &[]);
    controller.select_for_edit(1, 0).unwrap();
    controller.set_buffer(Task::new("b2", "", "")).unwrap();
    controller.remove(1, 0).unwrap();
    assert!(controller.selection().is_none());
    assert_eq!(controller.commit_edit(), Err(BoardError::StaleReference));
    assert_eq!(names(&controller, 0), vec!["a"]);
    assert_eq!(names(&controller, 1), vec!["c"]);
    assert!(controller.selection().is_none());
}

#[test]
fn selection_follows_its_task_when_one_above_is_removed() {
    let mut controller = controller_with(&["a", "b", "c"], &["x"], &[]);
    controller.select_for_edit(0, 2).unwrap();
    controller.set_buffer(Task::new("c2", "01.02.03", "1h:30m")).unwrap();
    controller.remove(0, 0).unwrap();
    assert_eq!(controller.selection().unwrap().place, Place { column: 0, row: 1 });
    assert!(controller.is_selected(0, 1));
    controller.remove(1, 0).unwrap();
    controller.remove(0, 0).unwrap();
    assert_eq!(controller.selection().unwrap().place, Place { column: 0, row: 0 });
    assert_eq!(controller.selection().unwrap().buffer.label, "c2");
    assert_eq!(controller.commit_edit(), Ok(Effect::Persist));
    assert_eq!(names(&controller, 0), vec!["c2"]);
}

#[test]
fn selection_stays_when_a_task_below_is_removed() {
    let mut controller = controller_with(&["a", "b", "c"], &[], &[]);
    controller.select_for_edit(0, 1).unwrap();
    controller.remove(0, 2).unwrap();
    assert_eq!(controller.selection().unwrap().place, Place { column: 0, row: 1 });
    assert_eq!(controller.selection().unwrap().buffer.label, "b");
}

#[test]
fn selection_follows_its_task_through_a_drop() {
    let mut controller = controller_with(&["a", "b", "c"], &["x", "y"], &[]);
    controller.select_for_edit(0, 1).unwrap();
    controller.begin_drag(0, 1).unwrap();
    controller.hover_column(1);
    assert_eq!(controller.end_drag(true), Ok(Effect::Persist));
    assert_eq!(names(&controller, 1), vec!["x", "y", "b"]);
    assert_eq!(controller.selection().unwrap().place, Place { column: 1, row: 2 });
    controller.select_for_edit(0, 1).unwrap();
    controller.begin_drag(0, 0).unwrap();
    controller.hover_column(0);
    assert_eq!(controller.end_drag(true), Ok(Effect::Persist));
    assert_eq!(names(&controller, 0), vec!["c", "a"]);
    assert_eq!(controller.selection().unwrap().place, Place { column: 0, row: 0 });
    assert_eq!(controller.selection().unwrap().buffer.label, "c");
    controller.begin_drag(0, 0).unwrap();
    controller.hover_column(0);
    assert_eq!(controller.end_drag(true), Ok(Effect::Persist));
    assert_eq!(names(&controller, 0), vec!["a", "c"]);
    assert_eq!(controller.selection().unwrap().place, Place { column: 0, row: 1 });
}

#[test]
fn drag_loses_its_source_when_its_task_is_edited() {
    let mut controller = controller_with(&["a", "b"], &[], &[]);
    controller.begin_drag(0, 0).unwrap();
    controller.hover_column(1);
    controller.select_for_edit(0, 0).unwrap();
    controller.set_buffer(Task::new("a2", "", "")).unwrap();
    assert_eq!(controller.commit_edit(), Ok(Effect::Persist));
    assert_eq!(controller.drag(), Some(DragState { source: None, target: Some(1) }));
    assert_eq!(controller.end_drag(true), Err(BoardError::StaleReference));
    assert_eq!(names(&controller, 0), vec!["b", "a2"]);
    assert!(names(&controller, 1).is_empty());
}

#[test]
fn drag_cancel_is_a_no_op() {
    let mut controller = controller_with(&["a", "b"], &["c"], &[]);
    let before = controller.board().clone();
    assert_eq!(controller.begin_drag(0, 0), Ok(()));
    assert_eq!(controller.drag(), Some(DragState { source: Some(Place { column: 0, row: 0 }), target: None }));
    assert_eq!(controller.end_drag(false), Ok(Effect::Unchanged));
    assert_eq!(controller.board(), &before);
    assert_eq!(controller.drag(), None);
}

#[test]
fn drag_cancelled_over_a_column_is_a_no_op() {
    let mut controller = controller_with(&["a", "b"], &["c"], &[]);
    let before = controller.board().clone();
    controller.begin_drag(0, 1).unwrap();
    controller.hover_column(2);
    assert_eq!(controller.end_drag(false), Ok(Effect::Unchanged));
    assert_eq!(controller.board(), &before);
    assert_eq!(controller.drag(), None);
}

#[test]
fn release_over_no_column_moves_nothing() {
    let mut controller = controller_with(&["a", "b"], &["c"], &[]);
    let before = controller.board().clone();
    controller.begin_drag(0, 1).unwrap();
    assert_eq!(controller.end_drag(true), Ok(Effect::Unchanged));
    assert_eq!(controller.board(), &before);
    controller.begin_drag(0, 1).unwrap();
    controller.hover_column(1);
    controller.leave_columns();
    assert_eq!(controller.drag(), Some(DragState { source: Some(Place { column: 0, row: 1 }), target: None }));
    assert_eq!(controller.end_drag(true), Ok(Effect::Unchanged));
    assert_eq!(controller.board(), &before);
    assert_eq!(controller.drag(), None);
}

#[test]
fn release_over_a_column_moves_the_task_to_its_end() {
    let mut controller = controller_with(&["a", "b", "t"], &["c"], &[]);
    controller.begin_drag(0, 2).unwrap();
    controller.hover_column(2);
    controller.hover_column(1);
    assert_eq!(controller.drag(), Some(DragState { source: Some(Place { column: 0, row: 2 }), target: Some(1) }));
    assert_eq!(controller.end_drag(true), Ok(Effect::Persist));
    assert_eq!(names(&controller, 0), vec!["a", "b"]);
    assert_eq!(names(&controller, 1), vec!["c", "t"]);
    assert!(names(&controller, 2).is_empty());
    assert_eq!(controller.drag(), None);
}

#[test]
fn only_one_drag_at_a_time() {
    let mut controller = controller_with(&["a", "b"], &["c"], &[]);
    controller.begin_drag(0, 1).unwrap();
    controller.hover_column(2);
    assert_eq!(controller.begin_drag(1, 0), Ok(()));
    assert_eq!(controller.begin_drag(9, 9), Ok(()));
    assert_eq!(controller.drag(), Some(DragState { source: Some(Place { column: 0, row: 1 }), target: Some(2) }));
}

#[test]
fn drag_begins_only_where_a_task_is() {
    let mut controller = controller_with(&["a"], &[], &[]);
    assert_eq!(controller.begin_drag(0, 1), Err(BoardError::OutOfRange));
    assert_eq!(controller.begin_drag(1, 0), Err(BoardError::OutOfRange));
    assert_eq!(controller.begin_drag(3, 0), Err(BoardError::OutOfRange));
    assert_eq!(controller.drag(), None);
}

#[test]
fn hover_without_a_drag_sets_no_target() {
    let mut controller = controller_with(&["a"], &[], &[]);
    controller.hover_column(1);
    controller.leave_columns();
    assert_eq!(controller.drag(), None);
    assert_eq!(controller.end_drag(true), Ok(Effect::Unchanged));
    assert_eq!(names(&controller, 0), vec!["a"]);
}

#[test]
fn drop_of_a_task_that_has_gone_is_stale() {
    let mut controller = controller_with(&["a", "b"], &["c"], &[]);
    let mut expected = controller.board().clone();
    expected.remove(0, 0).unwrap();
    controller.begin_drag(0, 0).unwrap();
    controller.hover_column(1);
    controller.remove(0, 0).unwrap();
    assert_eq!(controller.drag(), Some(DragState { source: None, target: Some(1) }));
    assert_eq!(controller.end_drag(true), Err(BoardError::StaleReference));
    assert_eq!(controller.board(), &expected);
    assert_eq!(names(&controller, 0), vec!["b"]);
    assert_eq!(names(&controller, 1), vec!["c"]);
    assert_eq!(controller.drag(), None);
}

#[test]
fn cancelled_drag_of_a_task_that_has_gone_is_no_error() {
    let mut controller = controller_with(&["a"], &[], &[]);
    controller.begin_drag(0, 0).unwrap();
    controller.remove(0, 0).unwrap();
    assert_eq!(controller.end_drag(false), Ok(Effect::Unchanged));
    controller.create(Task::new("b", "", "")).unwrap();
    controller.begin_drag(0, 0).unwrap();
    controller.remove(0, 0).unwrap();
    assert_eq!(controller.end_drag(true), Ok(Effect::Unchanged));
    assert_eq!(controller.drag(), None);
}

#[test]
fn drag_follows_its_task_when_one_above_is_removed() {
    let mut controller = controller_with(&["a", "b", "t"], &["c"], &[]);
    controller.begin_drag(0, 2).unwrap();
    controller.hover_column(1);
    controller.remove(0, 0).unwrap();
    assert_eq!(controller.drag(), Some(DragState { source: Some(Place { column: 0, row: 1 }), target: Some(1) }));
    controller.remove(1, 0).unwrap();
    assert_eq!(controller.drag(), Some(DragState { source: Some(Place { column: 0, row: 1 }), target: Some(1) }));
    assert_eq!(controller.end_drag(true), Ok(Effect::Persist));
    assert_eq!(names(&controller, 0), vec!["b"]);
    assert_eq!(names(&controller, 1), vec!["t"]);
}

#[test]
fn drop_on_a_column_that_is_not_there_is_out_of_range() {
    let mut controller = controller_with(&["a"], &["b"], &[]);
    let before = controller.board().clone();
    controller.begin_drag(0, 0).unwrap();
    controller.hover_column(3);
    assert_eq!(controller.end_drag(true), Err(BoardError::OutOfRange));
    assert_eq!(controller.board(), &before);
    assert_eq!(controller.drag(), None);
}

#[test]
fn every_intent_keeps_three_columns() {
    let mut controller = controller_with(&["a", "b"], &["c"], &[]);
    let _ = controller.create(Task::new("d", "", ""));
    let _ = controller.begin_drag(0, 2);
    controller.hover_column(2);
    let _ = controller.end_drag(true);
    let _ = controller.select_for_edit(2, 0);
    let _ = controller.set_buffer(Task::new("", "", ""));
    let _ = controller.commit_edit();
    let _ = controller.remove(0, 0);
    let _ = controller.remove(7, 7);
    let _ = controller.begin_drag(1, 0);
    controller.hover_column(9);
    let _ = controller.end_drag(true);
    assert!(controller.board().column(0).is_some());
    assert!(controller.board().column(1).is_some());
    assert!(controller.board().column(2).is_some());
    assert!(controller.board().column(3).is_none());
    assert_eq!(names(&controller, 0), vec!["b"]);
    assert_eq!(names(&controller, 1), vec!["c"]);
    assert!(names(&controller, 2).is_empty());
}

fn sample(dragged: Option<(usize, usize)>, hovered: Option<usize>, released: bool) -> PointerSample {
    PointerSample { dragged: dragged.map(|(column, row)| Place { column, row }), hovered, released }
}

#[test]
fn pointer_that_holds_a_task_begins_a_drag() {
    let mut controller = controller_with(&["a", "b"], &["c"], &[]);
    assert_eq!(controller.track_pointer(sample(Some((0, 1)), None, false)), Ok(Effect::Unchanged));
    assert_eq!(controller.drag(), Some(DragState { source: Some(Place { column: 0, row: 1 }), target: None }));
    assert_eq!(controller.track_pointer(sample(Some((0, 1)), Some(2), false)), Ok(Effect::Unchanged));
    assert_eq!(controller.drag(), Some(DragState { source: Some(Place { column: 0, row: 1 }), target: Some(2) }));
    assert_eq!(controller.track_pointer(sample(Some((0, 1)), None, false)), Ok(Effect::Unchanged));
    assert_eq!(controller.drag(), Some(DragState { source: Some(Place { column: 0, row: 1 }), target: None }));
    assert_eq!(names(&controller, 0), vec!["a", "b"]);
}

#[test]
fn pointer_released_over_a_column_drops_the_task() {
    let mut controller = controller_with(&["a", "b"], &["c"], &[]);
    controller.track_pointer(sample(Some((0, 0)), Some(0), false)).unwrap();
    assert_eq!(controller.track_pointer(sample(Some((0, 0)), Some(1), true)), Ok(Effect::Persist));
    assert_eq!(names(&controller, 0), vec!["b"]);
    assert_eq!(names(&controller, 1), vec!["c", "a"]);
    assert_eq!(controller.drag(), None);
}

#[test]
fn pointer_released_in_its_first_round_drops_the_task() {
    let mut controller = controller_with(&["a", "b"], &["c"], &[]);
    assert_eq!(controller.track_pointer(sample(Some((0, 1)), Some(2), true)), Ok(Effect::Persist));
    assert_eq!(names(&controller, 0), vec!["a"]);
    assert_eq!(names(&controller, 2), vec!["b"]);
    assert_eq!(controller.drag(), None);
}

#[test]
fn pointer_released_over_no_column_cancels_the_drag() {
    let mut controller = controller_with(&["a", "b"], &["c"], &[]);
    let before = controller.board().clone();
    controller.track_pointer(sample(Some((0, 0)), Some(1), false)).unwrap();
    assert_eq!(controller.track_pointer(sample(Some((0, 0)), None, true)), Ok(Effect::Unchanged));
    assert_eq!(controller.board(), &before);
    assert_eq!(controller.drag(), None);
}

#[test]
fn pointer_that_holds_nothing_ends_the_drag_without_a_drop() {
    let mut controller = controller_with(&["a", "b"], &["c"], &[]);
    let before = controller.board().clone();
    controller.track_pointer(sample(Some((0, 0)), Some(1), false)).unwrap();
    assert_eq!(controller.track_pointer(sample(None, Some(1), true)), Ok(Effect::Unchanged));
    assert_eq!(controller.board(), &before);
    assert_eq!(controller.drag(), None);
    assert_eq!(controller.track_pointer(sample(None, None, false)), Ok(Effect::Unchanged));
    assert_eq!(controller.drag(), None);
}

#[test]
fn pointer_keeps_to_the_task_it_took_up() {
    let mut controller = controller_with(&["a", "b", "c"], &[], &[]);
    controller.track_pointer(sample(Some((0, 2)), Some(1), false)).unwrap();
    controller.remove(0, 0).unwrap();
    assert_eq!(controller.track_pointer(sample(Some((0, 2)), Some(1), true)), Ok(Effect::Persist));
    assert_eq!(names(&controller, 0), vec!["b"]);
    assert_eq!(names(&controller, 1), vec!["c"]);
}

#[test]
fn pointer_on_a_place_without_a_task_is_out_of_range() {
    let mut controller = controller_with(&["a"], &[], &[]);
    assert_eq!(controller.track_pointer(sample(Some((0, 1)), Some(1), true)), Err(BoardError::OutOfRange));
    assert_eq!(controller.drag(), None);
    assert_eq!(names(&controller, 0), vec!["a"]);
}

#[test]
fn handle_does_what_the_intent_names() {
    let mut controller = controller_with(&["a"], &[], &[]);
    assert_eq!(controller.handle(Intent::Create(Task::new("b", "", ""))), Ok(Effect::Persist));
    assert_eq!(controller.handle(Intent::Create(Task::new("", "", ""))), Err(BoardError::ValidationRejected));
    assert_eq!(controller.handle(Intent::SetDraft(Task::new("c", "d", "e"))), Ok(Effect::Unchanged));
    assert_eq!(controller.draft(), &Task::new("c", "d", "e"));
    assert_eq!(controller.handle(Intent::SubmitDraft), Ok(Effect::Persist));
    assert_eq!(names(&controller, 0), vec!["a", "b", "c"]);
    assert_eq!(controller.handle(Intent::SelectForEdit(0, 1)), Ok(Effect::Unchanged));
    assert!(controller.is_selected(0, 1));
    assert_eq!(controller.handle(Intent::SelectForEdit(2, 0)), Err(BoardError::OutOfRange));
    assert_eq!(controller.handle(Intent::SetBuffer(Task::new("x", "", ""))), Err(BoardError::StaleReference));
    assert_eq!(controller.handle(Intent::SelectForEdit(0, 1)), Ok(Effect::Unchanged));
    assert_eq!(controller.handle(Intent::SetBuffer(Task::new("b2", "", ""))), Ok(Effect::Unchanged));
    assert_eq!(controller.handle(Intent::CommitEdit), Ok(Effect::Persist));
    assert_eq!(names(&controller, 0), vec!["a", "c", "b2"]);
    assert_eq!(controller.handle(Intent::CommitEdit), Err(BoardError::StaleReference));
    assert_eq!(controller.handle(Intent::Remove(0, 1)), Ok(Effect::Persist));
    assert_eq!(controller.handle(Intent::Remove(0, 2)), Err(BoardError::OutOfRange));
    assert_eq!(controller.handle(Intent::BeginDrag(0, 0)), Ok(Effect::Unchanged));
    assert_eq!(controller.handle(Intent::BeginDrag(0, 9)), Ok(Effect::Unchanged));
    assert_eq!(controller.handle(Intent::HoverColumn(2)), Ok(Effect::Unchanged));
    assert_eq!(controller.handle(Intent::LeaveColumns), Ok(Effect::Unchanged));
    assert_eq!(controller.handle(Intent::EndDrag(true)), Ok(Effect::Unchanged));
    assert_eq!(controller.handle(Intent::BeginDrag(0, 9)), Err(BoardError::OutOfRange));
    assert_eq!(controller.handle(Intent::BeginDrag(0, 0)), Ok(Effect::Unchanged));
    assert_eq!(controller.handle(Intent::HoverColumn(2)), Ok(Effect::Unchanged));
    assert_eq!(controller.handle(Intent::EndDrag(true)), Ok(Effect::Persist));
    assert_eq!(names(&controller, 0), vec!["b2"]);
    assert_eq!(names(&controller, 2), vec!["a"]);
    let pointer = PointerSample { dragged: Some(Place { column: 2, row: 0 }), hovered: Some(1), released: true };
    assert_eq!(controller.handle(Intent::Pointer(pointer)), Ok(Effect::Persist));
    assert_eq!(names(&controller, 1), vec!["a"]);
    assert!(names(&controller, 2).is_empty());
}

#[test]
fn every_task_stays_in_exactly_one_column() {
    let mut controller = Controller::new(Board::seeded("28.10.26"), Task::blank("28.10.26".to_string()));
    controller.track_pointer(sample(Some((0, 2)), Some(1), true)).unwrap();
    controller.track_pointer(sample(Some((0, 0)), Some(2), true)).unwrap();
    controller.track_pointer(sample(Some((1, 0)), Some(2), true)).unwrap();
    controller.track_pointer(sample(Some((0, 1)), Some(0), true)).unwrap();
    controller.create(Task::new("Education Verus", "28.10.26", "0h:0m")).unwrap();
    controller.select_for_edit(2, 0).unwrap();
    controller.set_buffer(Task::new("Education Rust", "29.10.26", "2h:0m")).unwrap();
    controller.commit_edit().unwrap();
    assert_eq!(names(&controller, 0), vec!["Education C++", "Education Painting", "Education English", "Education Verus"]);
    assert!(names(&controller, 1).is_empty());
    assert_eq!(names(&controller, 2), vec!["Education Assembler", "Education Rust"]);
    let all: Vec<String> = (0..3).flat_map(|column| names(&controller, column)).collect();
    for label in &all {
        let columns_with_it = (0..3).filter(|column| names(&controller, *column).contains(label)).count();
        assert_eq!(columns_with_it, 1);
        assert_eq!(all.iter().filter(|other| *other == label).count(), 1);
    }
    assert_eq!(all.len(), 6);
}

#[test]
fn no_task_on_the_board_is_without_a_label() {
    let mut controller = Controller::new(Board::seeded("28.10.26"), Task::blank("28.10.26".to_string()));
    let _ = controller.create(Task::new("", "28.10.26", "0h:0m"));
    let _ = controller.submit_draft();
    controller.select_for_edit(0, 1).unwrap();
    controller.set_buffer(Task::new("", "", "")).unwrap();
    controller.commit_edit().unwrap();
    controller.track_pointer(sample(Some((0, 0)), Some(2), true)).unwrap();
    controller.set_draft(Task::new("x", "", ""));
    controller.submit_draft().unwrap();
    let all: Vec<String> = (0..3).flat_map(|column| names(&controller, column)).collect();
    assert_eq!(all.len(), 5);
    assert!(all.iter().all(|label| !label.is_empty()));
}

#[test]
fn round_handles_the_clicks_and_then_the_pointer() {
    let mut controller = controller_with(&["a", "b", "c"], &["x"], &[]);
    let clicks = vec![
        Intent::SelectForEdit(0, 1),
        Intent::Create(Task::new("", "", "")),
        Intent::Remove(0, 0),
        Intent::Remove(9, 9),
    ];
    let outcomes = controller.handle_round(clicks, sample(Some((0, 1)), Some(1), true));
    assert_eq!(
        outcomes,
        vec![
            Ok(Effect::Unchanged),
            Err(BoardError::ValidationRejected),
            Ok(Effect::Persist),
            Err(BoardError::OutOfRange),
            Ok(Effect::Persist),
        ]
    );
    assert!(write_is_due(&outcomes));
    assert_eq!(names(&controller, 0), vec!["b"]);
    assert_eq!(names(&controller, 1), vec!["x", "c"]);
    assert_eq!(controller.selection().unwrap().place, Place { column: 0, row: 0 });
    assert_eq!(controller.drag(), None);
}

#[test]
fn round_drops_no_task_that_a_click_has_removed() {
    let mut controller = controller_with(&["a", "b"], &["x"], &[]);
    let first = controller.handle_round(vec![], sample(Some((0, 0)), Some(1), false));
    assert_eq!(first, vec![Ok(Effect::Unchanged)]);
    assert!(!write_is_due(&first));
    let second = controller.handle_round(vec![Intent::Remove(0, 0)], sample(Some((0, 0)), Some(1), true));
    assert_eq!(second, vec![Ok(Effect::Persist), Err(BoardError::StaleReference)]);
    assert!(write_is_due(&second));
    assert_eq!(names(&controller, 0), vec!["b"]);
    assert_eq!(names(&controller, 1), vec!["x"]);
    assert_eq!(controller.drag(), None);
}

#[test]
fn round_without_clicks_or_pointer_changes_nothing() {
    let mut controller = controller_with(&["a"], &[], &[]);
    let before = controller.board().clone();
    let outcomes = controller.handle_round(vec![], sample(None, None, false));
    assert_eq!(outcomes, vec![Ok(Effect::Unchanged)]);
    assert!(!write_is_due(&outcomes));
    assert!(!write_is_due(&vec![]));
    assert!(!write_is_due(&vec![Err(BoardError::OutOfRange), Ok(Effect::Unchanged)]));
    assert!(write_is_due(&vec![Ok(Effect::Unchanged), Ok(Effect::Persist)]));
    assert_eq!(controller.board(), &before);
}
