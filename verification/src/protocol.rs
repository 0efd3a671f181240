//! The interaction as mathematics: the state between two user intents and
//! what each intent makes of it.

use vstd::prelude::*;
use crate::board::{BoardError, Effect};
use crate::model::{Columns, COLUMN_COUNT, holds_task, well_formed, with_appended, with_edited, with_moved, with_removed};
use crate::task::TaskView;

verus! {

/// A place on the board: a column and a row in it.
#[derive(Debug, Clone, Copy, PartialEq, Eq, Structural)]
pub struct Place {
    pub column: usize,
    pub row: usize,
}

/// A drag that is under way.
#[derive(Debug, Clone, Copy, PartialEq, Eq)]
pub struct DragState {
    /// Where the dragged task is now; `None` once it has left the board.
    pub source: Option<Place>,
    /// The column under the pointer, if the pointer is over one.
    pub target: Option<usize>,
}

/// What one round of showing the board has seen of the pointer.
#[derive(Debug, Clone, Copy, PartialEq, Eq)]
pub struct PointerSample {
    /// The place of the task that the pointer holds, if it holds one.
    pub dragged: Option<Place>,
    /// The column whose drop zone the pointer is over, if it is over one.
    pub hovered: Option<usize>,
    /// Whether the pointer's button was let go in this round.
    pub released: bool,
}

/// The task that is selected for editing: its place, and the edit buffer.
pub struct SelectionView {
    pub place: Place,
    pub buffer: TaskView,
}

/// What the user may ask for.
pub enum IntentView {
    /// Add the given task to the board.
    Create(TaskView),
    /// Put the given texts into the form for a new task.
    SetDraft(TaskView),
    /// Submit the form for a new task.
    SubmitDraft,
    /// Take the task at the given column and row off the board.
    Remove(usize, usize),
    /// Select the task at the given column and row for editing.
    SelectForEdit(usize, usize),
    /// Put the given texts into the edit buffer.
    SetBuffer(TaskView),
    /// Replace the selected task by the edit buffer.
    CommitEdit,
    /// Begin to drag the task at the given column and row.
    BeginDrag(usize, usize),
    /// The pointer is over the drop zone of the given column.
    HoverColumn(usize),
    /// The pointer is over no drop zone.
    LeaveColumns,
    /// End the drag; the flag says whether the pointer let go of the task.
    EndDrag(bool),
    /// Take note of what was seen of the pointer.
    Pointer(PointerSample),
}

/// The intents of one round of showing the board, in the order in which
/// they are handled: what was clicked and typed, as it came, and then what
/// was seen of the pointer. So a task that a click removes is gone before
/// the pointer drops it.
pub open spec fn round_of(clicks: Seq<IntentView>, pointer: PointerSample) -> Seq<IntentView> {
    clicks.push(IntentView::Pointer(pointer))
}

/// There is a task at `place`.
pub open spec fn task_at(columns: Columns, place: Place) -> bool {
    holds_task(columns, place.column as int, place.row as int)
}

/// Where the task that stood at `place` stands once the task at `gone` has
/// left the board: nowhere if it was that task, one row up if it stood
/// below it in the same column, and where it was otherwise.
pub open spec fn place_after_removal(place: Place, gone: Place) -> Option<Place> {
    if place.column != gone.column || place.row < gone.row {
        Some(place)
    } else if place.row == gone.row {
        None
    } else {
        Some(Place { column: place.column, row: (place.row - 1) as usize })
    }
}

/// Where the task that stood at `place` stands once the task at `source`
/// has moved to the end of column `dest`; `columns` is the board before the
/// move.
pub open spec fn place_after_move(columns: Columns, place: Place, source: Place, dest: usize) -> Place {
    match place_after_removal(place, source) {
        Some(place) => place,
        None => Place {
            column: dest,
            row: (with_moved(columns, source.column as int, source.row as int, dest as int)[dest as int].len()
                - 1) as usize,
        },
    }
}

/// The selection once the task at `gone` has left the board: it follows its
/// task, and ends if that was the task that left.
pub open spec fn selection_after_removal(selection: Option<SelectionView>, gone: Place) -> Option<
    SelectionView,
> {
    match selection {
        Some(selection) => match place_after_removal(selection.place, gone) {
            Some(place) => Some(SelectionView { place, ..selection }),
            None => None,
        },
        None => None,
    }
}

/// The drag once the task at `gone` has left the board: its source follows
/// the dragged task, and is lost if that was the task that left.
pub open spec fn drag_after_removal(drag: Option<DragState>, gone: Place) -> Option<DragState> {
    match drag {
        Some(DragState { source: Some(place), target }) => Some(
            DragState { source: place_after_removal(place, gone), target },
        ),
        _ => drag,
    }
}

/// The selection once the task at `source` has moved to the end of column
/// `dest`: it follows its task.
pub open spec fn selection_after_move(
    columns: Columns,
    selection: Option<SelectionView>,
    source: Place,
    dest: usize,
) -> Option<SelectionView> {
    match selection {
        Some(selection) => Some(
            SelectionView { place: place_after_move(columns, selection.place, source, dest), ..selection },
        ),
        None => None,
    }
}

/// An intent that was handled without a word on the store leaves nothing
/// to write.
pub open spec fn nothing_to_write(outcome: Result<(), BoardError>) -> Result<Effect, BoardError> {
    match outcome {
        Ok(_) => Ok(Effect::Unchanged),
        Err(refusal) => Err(refusal),
    }
}

/// All that the controller holds.
pub struct ControllerView {
    /// The board.
    pub board: Columns,
    /// The form in which a new task is typed.
    pub draft: TaskView,
    /// The task selected for editing, if any.
    pub selection: Option<SelectionView>,
    /// The drag under way, if any.
    pub drag: Option<DragState>,
}

impl ControllerView {
    /// The board has three columns.
    pub open spec fn well_formed(self) -> bool {
        well_formed(self.board)
    }

    /// The selection and the source of the drag are places of tasks.
    pub open spec fn references_hold(self) -> bool {
        &&& self.selection matches Some(selection) ==> task_at(self.board, selection.place)
        &&& self.drag matches Some(DragState { source: Some(place), .. }) ==> task_at(self.board, place)
    }

    /// The state after `intent` was handled, and what came of it.
    pub open spec fn handle(self, intent: IntentView) -> (Self, Result<Effect, BoardError>) {
        match intent {
            IntentView::Create(task) => self.create(task),
            IntentView::SetDraft(task) => (self.set_draft(task), Ok(Effect::Unchanged)),
            IntentView::SubmitDraft => self.submit_draft(),
            IntentView::Remove(column, row) => self.remove(column, row),
            IntentView::SelectForEdit(column, row) => (
                self.select_for_edit(column, row).0,
                nothing_to_write(self.select_for_edit(column, row).1),
            ),
            IntentView::SetBuffer(task) => (self.set_buffer(task).0, nothing_to_write(self.set_buffer(task).1)),
            IntentView::CommitEdit => self.commit_edit(),
            IntentView::BeginDrag(column, row) => (
                self.begin_drag(column, row).0,
                nothing_to_write(self.begin_drag(column, row).1),
            ),
            IntentView::HoverColumn(column) => (self.hover_column(column), Ok(Effect::Unchanged)),
            IntentView::LeaveColumns => (self.leave_columns(), Ok(Effect::Unchanged)),
            IntentView::EndDrag(released) => self.end_drag(released),
            IntentView::Pointer(sample) => self.track_pointer(sample),
        }
    }

    /// The state after `intent` was handled.
    pub open spec fn after(self, intent: IntentView) -> Self {
        self.handle(intent).0
    }

    /// The state after all of `intents` were handled, the first one first.
    pub open spec fn after_all(self, intents: Seq<IntentView>) -> Self
        decreases intents.len(),
    {
        if intents.len() == 0 {
            self
        } else {
            self.after_all(intents.drop_last()).after(intents.last())
        }
    }

    /// What came of the intent at `index`, when `intents` were handled from
    /// this state on, the first one first.
    pub open spec fn outcome_of(self, intents: Seq<IntentView>, index: int) -> Result<Effect, BoardError> {
        self.after_all(intents.take(index)).handle(intents[index]).1
    }

    /// A labelled task joins the end of the first column; one without a
    /// label is refused.
    pub open spec fn create(self, task: TaskView) -> (Self, Result<Effect, BoardError>) {
        if task.label.len() > 0 {
            (ControllerView { board: with_appended(self.board, 0, task), ..self }, Ok(Effect::Persist))
        } else {
            (self, Err(BoardError::ValidationRejected))
        }
    }

    /// The form for a new task takes the given texts.
    pub open spec fn set_draft(self, task: TaskView) -> Self {
        ControllerView { draft: task, ..self }
    }

    /// The form is submitted: a labelled draft joins the end of the first
    /// column and the form's label is emptied for the next task; a draft
    /// without a label is refused.
    pub open spec fn submit_draft(self) -> (Self, Result<Effect, BoardError>) {
        if self.draft.label.len() > 0 {
            (
                ControllerView {
                    board: with_appended(self.board, 0, self.draft),
                    draft: TaskView { label: Seq::empty(), ..self.draft },
                    ..self
                },
                Ok(Effect::Persist),
            )
        } else {
            (self, Err(BoardError::ValidationRejected))
        }
    }

    /// The task at the given place leaves the board. The selection and the
    /// drag follow their tasks; a selection of the task that left ends, and
    /// a drag of it has lost its source.
    pub open spec fn remove(self, column: usize, row: usize) -> (Self, Result<Effect, BoardError>) {
        let gone = Place { column, row };
        if task_at(self.board, gone) {
            (
                ControllerView {
                    board: with_removed(self.board, column as int, row as int),
                    selection: selection_after_removal(self.selection, gone),
                    drag: drag_after_removal(self.drag, gone),
                    ..self
                },
                Ok(Effect::Persist),
            )
        } else {
            (self, Err(BoardError::OutOfRange))
        }
    }

    /// The task at the given place becomes the selection and its texts fill
    /// the edit buffer. Where there is no such task nothing is selected any
    /// more.
    pub open spec fn select_for_edit(self, column: usize, row: usize) -> (Self, Result<(), BoardError>) {
        let place = Place { column, row };
        if task_at(self.board, place) {
            (
                ControllerView {
                    selection: Some(SelectionView { place, buffer: self.board[column as int][row as int] }),
                    ..self
                },
                Ok(()),
            )
        } else {
            (ControllerView { selection: None, ..self }, Err(BoardError::OutOfRange))
        }
    }

    /// The edit buffer takes the given texts, if a task is selected.
    pub open spec fn set_buffer(self, task: TaskView) -> (Self, Result<(), BoardError>) {
        match self.selection {
            Some(selection) => (
                ControllerView { selection: Some(SelectionView { buffer: task, ..selection }), ..self },
                Ok(()),
            ),
            None => (self, Err(BoardError::StaleReference)),
        }
    }

    /// The edit buffer replaces the selected task, and nothing is selected
    /// any more, whether the edit was carried out or not. The edit is not
    /// carried out where nothing is selected or the selected place holds no
    /// task. A drag of the replaced task has lost its source.
    pub open spec fn commit_edit(self) -> (Self, Result<Effect, BoardError>) {
        match self.selection {
            Some(selection) => if task_at(self.board, selection.place) {
                (
                    ControllerView {
                        board: with_edited(
                            self.board,
                            selection.place.column as int,
                            selection.place.row as int,
                            selection.buffer,
                        ),
                        selection: None,
                        drag: drag_after_removal(self.drag, selection.place),
                        ..self
                    },
                    Ok(Effect::Persist),
                )
            } else {
                (ControllerView { selection: None, ..self }, Err(BoardError::StaleReference))
            },
            None => (self, Err(BoardError::StaleReference)),
        }
    }

    /// A drag of the task at the given place begins, with the pointer over
    /// no column yet. While a drag is under way another one does not begin.
    pub open spec fn begin_drag(self, column: usize, row: usize) -> (Self, Result<(), BoardError>) {
        let place = Place { column, row };
        if self.drag is Some {
            (self, Ok(()))
        } else if task_at(self.board, place) {
            (ControllerView { drag: Some(DragState { source: Some(place), target: None }), ..self }, Ok(()))
        } else {
            (self, Err(BoardError::OutOfRange))
        }
    }

    /// The pointer is over the drop zone of `column`: during a drag that
    /// column becomes the drop target.
    pub open spec fn hover_column(self, column: usize) -> Self {
        match self.drag {
            Some(drag) => ControllerView { drag: Some(DragState { target: Some(column), ..drag }), ..self },
            None => self,
        }
    }

    /// The pointer is over no drop zone: a drag has no drop target.
    pub open spec fn leave_columns(self) -> Self {
        match self.drag {
            Some(drag) => ControllerView { drag: Some(DragState { target: None, ..drag }), ..self },
            None => self,
        }
    }

    /// The drag ends. Released over a drop target, the dragged task moves
    /// to the end of that column, and the selection follows its task. The
    /// move is refused where the dragged task has left the board and where
    /// the target is no column of the board. Not released, or released over
    /// no drop target, nothing moves.
    pub open spec fn end_drag(self, released: bool) -> (Self, Result<Effect, BoardError>) {
        let idle = ControllerView { drag: None, ..self };
        match self.drag {
            Some(DragState { source, target: Some(target) }) if released => match source {
                Some(place) if task_at(self.board, place) => if target < COLUMN_COUNT {
                    (
                        ControllerView {
                            board: with_moved(self.board, place.column as int, place.row as int, target as int),
                            selection: selection_after_move(self.board, self.selection, place, target),
                            ..idle
                        },
                        Ok(Effect::Persist),
                    )
                } else {
                    (idle, Err(BoardError::OutOfRange))
                },
                _ => (idle, Err(BoardError::StaleReference)),
            },
            _ => (idle, Ok(Effect::Unchanged)),
        }
    }

    /// What was seen of the pointer becomes the drag's life. A pointer that
    /// holds a task begins a drag, unless one is under way; the column under
    /// it becomes the drop target, or none is; and a release ends the drag
    /// with a drop. A pointer that holds no task ends a drag without one.
    pub open spec fn track_pointer(self, sample: PointerSample) -> (Self, Result<Effect, BoardError>) {
        match sample.dragged {
            Some(place) => {
                let (begun, outcome) = self.begin_drag(place.column, place.row);
                if outcome is Err {
                    (begun, nothing_to_write(outcome))
                } else {
                    let over = match sample.hovered {
                        Some(column) => begun.hover_column(column),
                        None => begun.leave_columns(),
                    };
                    if sample.released {
                        over.end_drag(true)
                    } else {
                        (over, Ok(Effect::Unchanged))
                    }
                }
            },
            None => self.end_drag(false),
        }
    }
}

} // verus!
