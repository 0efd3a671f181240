//! The interaction controller: it owns the board and the transient state of
//! selecting and dragging, and turns each user intent into a change of them.

use vstd::prelude::*;
use crate::board::{Board, BoardError, Effect};
use crate::laws::lemma_references_stay_on_the_board;
use crate::protocol::{ControllerView, DragState, IntentView, Place, PointerSample, round_of, SelectionView, drag_after_removal, nothing_to_write, place_after_removal, selection_after_removal};
use crate::task::Task;

verus! {

/// The task that is selected for editing: its place on the board and the
/// buffer in which its texts are edited.
#[derive(Debug)]
pub struct Selection {
    pub place: Place,
    pub buffer: Task,
}

impl View for Selection {
    type V = SelectionView;

    open spec fn view(&self) -> SelectionView {
        SelectionView { place: self.place, buffer: self.buffer@ }
    }
}

/// The view of a selection that may be absent.
pub open spec fn selection_view(selection: Option<Selection>) -> Option<SelectionView> {
    match selection {
        Some(selection) => Some(selection@),
        None => None,
    }
}

/// What the user may ask for. The intents of one round of showing the board
/// are collected and then handled one by one, so that the board never
/// changes while it is shown.
#[derive(Debug)]
pub enum Intent {
    /// Add the given task to the board.
    Create(Task),
    /// Put the given texts into the form for a new task.
    SetDraft(Task),
    /// Submit the form for a new task.
    SubmitDraft,
    /// Take the task at the given column and row off the board.
    Remove(usize, usize),
    /// Select the task at the given column and row for editing.
    SelectForEdit(usize, usize),
    /// Put the given texts into the edit buffer.
    SetBuffer(Task),
    /// Replace the selected task by the edit buffer.
    CommitEdit,
    /// Begin to drag the task at the given column and row.
    BeginDrag(usize, usize),
    /// The pointer is over the drop zone of the given column.
    HoverColumn(usize),
    /// The pointer is over no drop zone.
    LeaveColumns,
    /// End the drag; the flag says whether the pointer let go of the task.
    EndDrag(bool),
    /// Take note of what was seen of the pointer.
    Pointer(PointerSample),
}

impl View for Intent {
    type V = IntentView;

    open spec fn view(&self) -> IntentView {
        match self {
            Intent::Create(task) => IntentView::Create(task@),
            Intent::SetDraft(task) => IntentView::SetDraft(task@),
            Intent::SubmitDraft => IntentView::SubmitDraft,
            Intent::Remove(column, row) => IntentView::Remove(*column, *row),
            Intent::SelectForEdit(column, row) => IntentView::SelectForEdit(*column, *row),
            Intent::SetBuffer(task) => IntentView::SetBuffer(task@),
            Intent::CommitEdit => IntentView::CommitEdit,
            Intent::BeginDrag(column, row) => IntentView::BeginDrag(*column, *row),
            Intent::HoverColumn(column) => IntentView::HoverColumn(*column),
            Intent::LeaveColumns => IntentView::LeaveColumns,
            Intent::EndDrag(released) => IntentView::EndDrag(*released),
            Intent::Pointer(sample) => IntentView::Pointer(*sample),
        }
    }
}

/// The views of intents, in their order.
pub open spec fn intent_views(intents: Seq<Intent>) -> Seq<IntentView> {
    intents.map_values(|intent: Intent| intent@)
}

/// The board together with what is being typed, edited and dragged.
#[derive(Debug)]
pub struct Controller {
    board: Board,
    draft: Task,
    selection: Option<Selection>,
    drag: Option<DragState>,
}

impl View for Controller {
    type V = ControllerView;

    closed spec fn view(&self) -> ControllerView {
        ControllerView {
            board: self.board@,
            draft: self.draft@,
            selection: selection_view(self.selection),
            drag: self.drag,
        }
    }
}

impl Controller {
    /// A controller for `board`, with `draft` in the form for a new task,
    /// nothing selected and nothing dragged.
    pub fn new(board: Board, draft: Task) -> (controller: Controller)
        ensures
            controller@ == (ControllerView { board: board@, draft: draft@, selection: None, drag: None }),
            controller@.well_formed(),
            controller@.references_hold(),
    {
        proof {
            use_type_invariant(&board);
            board.lemma_three_columns();
        }
        Controller { board, draft, selection: None, drag: None }
    }

    /// The board, for showing it.
    pub fn board(&self) -> (board: &Board)
        ensures
            board@ == self@.board,
    {
        &self.board
    }

    /// The form for a new task.
    pub fn draft(&self) -> (draft: &Task)
        ensures
            draft@ == self@.draft,
    {
        &self.draft
    }

    /// The task selected for editing, if any.
    pub fn selection(&self) -> (selection: Option<&Selection>)
        ensures
            self@.selection is Some ==> selection is Some && selection->0@ == self@.selection->0,
            self@.selection is None ==> selection is None,
    {
        self.selection.as_ref()
    }

    /// The drag under way, if any.
    pub fn drag(&self) -> (drag: Option<DragState>)
        ensures
            drag == self@.drag,
    {
        self.drag
    }

    /// Whether the task at the given place is the one selected for editing.
    pub fn is_selected(&self, column: usize, row: usize) -> (selected: bool)
        ensures
            selected == (self@.selection matches Some(selection) && selection.place == (Place { column, row })),
    {
        match &self.selection {
            Some(selection) => selection.place.column == column && selection.place.row == row,
            None => false,
        }
    }

    /// Handles one intent: changes the board and the transient state as the
    /// intent asks, and says whether the board is to be written.
    pub fn handle(&mut self, intent: Intent) -> (outcome: Result<Effect, BoardError>)
        ensures
            (final(self)@, outcome) == old(self)@.handle(intent@),
            final(self)@.well_formed(),
            old(self)@.references_hold() ==> final(self)@.references_hold(),
    {
        match intent {
            Intent::Create(task) => self.create(task),
            Intent::SetDraft(task) => {
                self.set_draft(task);
                Ok(Effect::Unchanged)
            },
            Intent::SubmitDraft => self.submit_draft(),
            Intent::Remove(column, row) => self.remove(column, row),
            Intent::SelectForEdit(column, row) => nothing_written(self.select_for_edit(column, row)),
            Intent::SetBuffer(task) => nothing_written(self.set_buffer(task)),
            Intent::CommitEdit => self.commit_edit(),
            Intent::BeginDrag(column, row) => nothing_written(self.begin_drag(column, row)),
            Intent::HoverColumn(column) => {
                self.hover_column(column);
                Ok(Effect::Unchanged)
            },
            Intent::LeaveColumns => {
                self.leave_columns();
                Ok(Effect::Unchanged)
            },
            Intent::EndDrag(released) => self.end_drag(released),
            Intent::Pointer(sample) => self.track_pointer(sample),
        }
    }

    /// Handles the intents of one round of showing the board: first what
    /// was clicked and typed, in the order given, then what was seen of the
    /// pointer. The outcomes come back in that order, the pointer's last.
    pub fn handle_round(&mut self, clicks: Vec<Intent>, pointer: PointerSample) -> (outcomes: Vec<
        Result<Effect, BoardError>,
    >)
        ensures
            final(self)@ == old(self)@.after_all(round_of(intent_views(clicks@), pointer)),
            outcomes@.len() == clicks@.len() + 1,
            forall|index: int|
                0 <= index < outcomes@.len() ==> #[trigger] outcomes@[index] == old(self)@.outcome_of(
                    round_of(intent_views(clicks@), pointer),
                    index,
                ),
            final(self)@.well_formed(),
            old(self)@.references_hold() ==> final(self)@.references_hold(),
    {
        let ghost start = self@;
        let ghost views = intent_views(clicks@);
        let ghost round = round_of(views, pointer);
        let mut left = clicks;
        let mut outcomes: Vec<Result<Effect, BoardError>> = Vec::new();
        proof {
            use_type_invariant(&self.board);
            self.board.lemma_three_columns();
            assert(round.take(0) =~= Seq::<IntentView>::empty());
        }
        while left.len() > 0
            invariant
                views == intent_views(clicks@),
                round == round_of(views, pointer),
                outcomes@.len() + left@.len() == clicks@.len(),
                left@ == clicks@.skip(outcomes@.len() as int),
                self@ == start.after_all(round.take(outcomes@.len() as int)),
                forall|index: int|
                    0 <= index < outcomes@.len() ==> #[trigger] outcomes@[index] == start.outcome_of(round, index),
                self@.well_formed(),
                start.references_hold() ==> self@.references_hold(),
            decreases left@.len(),
        {
            let ghost done = outcomes@.len() as int;
            let intent = left.remove(0);
            proof {
                assert(intent == clicks@[done]);
                assert(round[done] == intent@);
                assert(round.take(done + 1).drop_last() =~= round.take(done));
                assert(left@ =~= clicks@.skip(done + 1));
            }
            let outcome = self.handle(intent);
            outcomes.push(outcome);
        }
        let ghost done = outcomes@.len() as int;
        proof {
            assert(round[done] == IntentView::Pointer(pointer));
            assert(round.take(done + 1).drop_last() =~= round.take(done));
            assert(round.take(done + 1) =~= round);
        }
        let outcome = self.track_pointer(pointer);
        outcomes.push(outcome);
        outcomes
    }

    /// Adds `task` at the end of the first column and asks for a write. A
    /// task without a label is refused with `ValidationRejected`.
    pub fn create(&mut self, task: Task) -> (outcome: Result<Effect, BoardError>)
        ensures
            (final(self)@, outcome) == old(self)@.create(task@),
            final(self)@.well_formed(),
            old(self)@.references_hold() ==> final(self)@.references_hold(),
    {
        proof {
            use_type_invariant(&self.board);
            self.board.lemma_three_columns();
            lemma_references_stay_on_the_board(self@, IntentView::Create(task@));
        }
        self.board.create(task)
    }

    /// Puts the given texts into the form for a new task.
    pub fn set_draft(&mut self, task: Task)
        ensures
            final(self)@ == old(self)@.set_draft(task@),
            final(self)@.well_formed(),
            old(self)@.references_hold() ==> final(self)@.references_hold(),
    {
        proof {
            use_type_invariant(&self.board);
            self.board.lemma_three_columns();
        }
        self.draft = task;
    }

    /// Submits the form for a new task: a labelled draft is added at the end
    /// of the first column, the form's label is emptied and a write is
    /// asked for. A draft without a label is refused with
    /// `ValidationRejected` and stays in the form.
    pub fn submit_draft(&mut self) -> (outcome: Result<Effect, BoardError>)
        ensures
            (final(self)@, outcome) == old(self)@.submit_draft(),
            final(self)@.well_formed(),
            old(self)@.references_hold() ==> final(self)@.references_hold(),
    {
        proof {
            use_type_invariant(&self.board);
            self.board.lemma_three_columns();
            lemma_references_stay_on_the_board(self@, IntentView::SubmitDraft);
        }
        if !self.draft.has_label() {
            return Err(BoardError::ValidationRejected);
        }
        let task = self.draft.clone();
        let outcome = self.board.create(task);
        self.draft.label = String::new();
        outcome
    }

    /// Takes the task at `row` of `column` off the board and asks for a
    /// write. The selection and the drag keep to their tasks; where it was
    /// their task that left, the selection ends and the drag has lost its
    /// source. Where there is no such task the call is refused with
    /// `OutOfRange`.
    pub fn remove(&mut self, column: usize, row: usize) -> (outcome: Result<Effect, BoardError>)
        ensures
            (final(self)@, outcome) == old(self)@.remove(column, row),
            final(self)@.well_formed(),
            old(self)@.references_hold() ==> final(self)@.references_hold(),
    {
        proof {
            use_type_invariant(&self.board);
            self.board.lemma_three_columns();
            lemma_references_stay_on_the_board(self@, IntentView::Remove(column, row));
        }
        let outcome = self.board.remove(column, row);
        if outcome.is_ok() {
            let gone = Place { column, row };
            self.selection = selection_once_removed(self.selection.take(), gone);
            self.drag = drag_once_removed(self.drag, gone);
        }
        outcome
    }

    /// Selects the task at `row` of `column` for editing and copies its
    /// texts into the edit buffer. Where there is no such task the call is
    /// refused with `OutOfRange` and nothing is selected any more.
    pub fn select_for_edit(&mut self, column: usize, row: usize) -> (outcome: Result<(), BoardError>)
        ensures
            (final(self)@, outcome) == old(self)@.select_for_edit(column, row),
            final(self)@.well_formed(),
            old(self)@.references_hold() ==> final(self)@.references_hold(),
    {
        proof {
            use_type_invariant(&self.board);
            self.board.lemma_three_columns();
        }
        match self.board.task(column, row) {
            Some(task) => {
                self.selection = Some(Selection { place: Place { column, row }, buffer: task.clone() });
                Ok(())
            },
            None => {
                self.selection = None;
                Err(BoardError::OutOfRange)
            },
        }
    }

    /// Puts the given texts into the edit buffer. Where nothing is selected
    /// the call is refused with `StaleReference`.
    pub fn set_buffer(&mut self, task: Task) -> (outcome: Result<(), BoardError>)
        ensures
            (final(self)@, outcome) == old(self)@.set_buffer(task@),
            final(self)@.well_formed(),
            old(self)@.references_hold() ==> final(self)@.references_hold(),
    {
        proof {
            use_type_invariant(&self.board);
            self.board.lemma_three_columns();
        }
        match self.selection.take() {
            Some(selection) => {
                self.selection = Some(Selection { place: selection.place, buffer: task });
                Ok(())
            },
            None => Err(BoardError::StaleReference),
        }
    }

    /// Replaces the selected task by the edit buffer, which goes to the end
    /// of the task's column, and asks for a write; a buffer without a label
    /// only takes the task away. The selection ends in every case. Where
    /// nothing is selected, or the selected place holds no task, the call is
    /// refused with `StaleReference` and the board stays as it is.
    pub fn commit_edit(&mut self) -> (outcome: Result<Effect, BoardError>)
        ensures
            (final(self)@, outcome) == old(self)@.commit_edit(),
            final(self)@.well_formed(),
            old(self)@.references_hold() ==> final(self)@.references_hold(),
    {
        proof {
            use_type_invariant(&self.board);
            self.board.lemma_three_columns();
            lemma_references_stay_on_the_board(self@, IntentView::CommitEdit);
        }
        match self.selection.take() {
            Some(selection) => {
                let place = selection.place;
                if self.board.task(place.column, place.row).is_none() {
                    return Err(BoardError::StaleReference);
                }
                let outcome = self.board.edit(place.column, place.row, selection.buffer);
                self.drag = drag_once_removed(self.drag, place);
                outcome
            },
            None => Err(BoardError::StaleReference),
        }
    }

    /// Begins to drag the task at `row` of `column`. While a drag is under
    /// way the call changes nothing. Where there is no such task the call is
    /// refused with `OutOfRange`.
    pub fn begin_drag(&mut self, column: usize, row: usize) -> (outcome: Result<(), BoardError>)
        ensures
            (final(self)@, outcome) == old(self)@.begin_drag(column, row),
            final(self)@.well_formed(),
            old(self)@.references_hold() ==> final(self)@.references_hold(),
    {
        proof {
            use_type_invariant(&self.board);
            self.board.lemma_three_columns();
        }
        if self.drag.is_some() {
            return Ok(());
        }
        if self.board.task(column, row).is_none() {
            return Err(BoardError::OutOfRange);
        }
        self.drag = Some(DragState { source: Some(Place { column, row }), target: None });
        Ok(())
    }

    /// Notes that the pointer is over the drop zone of `column`: during a
    /// drag, that column is the drop target from now on.
    pub fn hover_column(&mut self, column: usize)
        ensures
            final(self)@ == old(self)@.hover_column(column),
            final(self)@.well_formed(),
            old(self)@.references_hold() ==> final(self)@.references_hold(),
    {
        proof {
            use_type_invariant(&self.board);
            self.board.lemma_three_columns();
        }
        match self.drag {
            Some(drag) => {
                self.drag = Some(DragState { source: drag.source, target: Some(column) });
            },
            None => {},
        }
    }

    /// Notes that the pointer is over no drop zone: a drag has no drop
    /// target from now on.
    pub fn leave_columns(&mut self)
        ensures
            final(self)@ == old(self)@.leave_columns(),
            final(self)@.well_formed(),
            old(self)@.references_hold() ==> final(self)@.references_hold(),
    {
        proof {
            use_type_invariant(&self.board);
            self.board.lemma_three_columns();
        }
        match self.drag {
            Some(drag) => {
                self.drag = Some(DragState { source: drag.source, target: None });
            },
            None => {},
        }
    }

    /// Ends the drag; `released` says whether the pointer let go of the
    /// task. A task let go over a drop target moves to the end of that
    /// column, the selection follows its task and a write is asked for. The
    /// move is refused with `StaleReference` where the dragged task has left
    /// the board, and with `OutOfRange` where the target is no column of the
    /// board. Without a release or without a target nothing moves. In every
    /// case no drag is under way afterwards.
    pub fn end_drag(&mut self, released: bool) -> (outcome: Result<Effect, BoardError>)
        ensures
            (final(self)@, outcome) == old(self)@.end_drag(released),
            final(self)@.well_formed(),
            old(self)@.references_hold() ==> final(self)@.references_hold(),
    {
        proof {
            use_type_invariant(&self.board);
            self.board.lemma_three_columns();
            lemma_references_stay_on_the_board(self@, IntentView::EndDrag(released));
        }
        let drag = self.drag.take();
        match drag {
            Some(DragState { source, target: Some(target) }) => {
                if !released {
                    return Ok(Effect::Unchanged);
                }
                let place = match source {
                    Some(place) => place,
                    None => {
                        return Err(BoardError::StaleReference);
                    },
                };
                if self.board.task(place.column, place.row).is_none() {
                    return Err(BoardError::StaleReference);
                }
                let outcome = self.board.move_task(place.column, place.row, target);
                if outcome.is_ok() {
                    assert(self.board@[target as int].len() >= 1);
                    let last = match self.board.column(target) {
                        Some(tasks) => tasks.len() - 1,
                        None => 0,
                    };
                    let landed = Place { column: target, row: last };
                    self.selection = selection_once_moved(self.selection.take(), place, landed);
                }
                outcome
            },
            _ => Ok(Effect::Unchanged),
        }
    }

    /// Takes note of what one round of showing the board has seen of the
    /// pointer: begins a drag, moves its drop target and ends it as the
    /// pointer does.
    pub fn track_pointer(&mut self, sample: PointerSample) -> (outcome: Result<Effect, BoardError>)
        ensures
            (final(self)@, outcome) == old(self)@.track_pointer(sample),
            final(self)@.well_formed(),
            old(self)@.references_hold() ==> final(self)@.references_hold(),
    {
        match sample.dragged {
            Some(place) => {
                let begun = self.begin_drag(place.column, place.row);
                if begun.is_err() {
                    return nothing_written(begun);
                }
                match sample.hovered {
                    Some(column) => self.hover_column(column),
                    None => self.leave_columns(),
                }
                if sample.released {
                    self.end_drag(true)
                } else {
                    Ok(Effect::Unchanged)
                }
            },
            None => self.end_drag(false),
        }
    }
}

/// Whether the board is to be written after a round: it is where any of the
/// round's intents asked for a write.
pub fn write_is_due(outcomes: &Vec<Result<Effect, BoardError>>) -> (due: bool)
    ensures
        due == exists|index: int|
            0 <= index < outcomes@.len() && #[trigger] outcomes@[index] == Ok::<Effect, BoardError>(
                Effect::Persist,
            ),
{
    let mut index: usize = 0;
    while index < outcomes.len()
        invariant
            index <= outcomes@.len(),
            forall|earlier: int|
                0 <= earlier < index ==> #[trigger] outcomes@[earlier] != Ok::<Effect, BoardError>(
                    Effect::Persist,
                ),
        decreases outcomes@.len() - index,
    {
        match outcomes[index] {
            Ok(Effect::Persist) => {
                return true;
            },
            _ => {},
        }
        index += 1;
    }
    false
}

/// The outcome of an intent that leaves the board as it was.
fn nothing_written(outcome: Result<(), BoardError>) -> (effect: Result<Effect, BoardError>)
    ensures
        effect == nothing_to_write(outcome),
{
    match outcome {
        Ok(()) => Ok(Effect::Unchanged),
        Err(refusal) => Err(refusal),
    }
}

/// Where the task of `place` stands once the task at `gone` has left.
fn place_once_removed(place: Place, gone: Place) -> (kept: Option<Place>)
    ensures
        kept == place_after_removal(place, gone),
{
    if place.column != gone.column || place.row < gone.row {
        Some(place)
    } else if place.row == gone.row {
        None
    } else {
        Some(Place { column: place.column, row: place.row - 1 })
    }
}

/// The selection once the task at `gone` has left.
fn selection_once_removed(selection: Option<Selection>, gone: Place) -> (kept: Option<Selection>)
    ensures
        selection_view(kept) == selection_after_removal(selection_view(selection), gone),
{
    match selection {
        Some(selection) => match place_once_removed(selection.place, gone) {
            Some(place) => Some(Selection { place, buffer: selection.buffer }),
            None => None,
        },
        None => None,
    }
}

/// The drag once the task at `gone` has left.
fn drag_once_removed(drag: Option<DragState>, gone: Place) -> (kept: Option<DragState>)
    ensures
        kept == drag_after_removal(drag, gone),
{
    match drag {
        Some(DragState { source: Some(place), target }) => Some(
            DragState { source: place_once_removed(place, gone), target },
        ),
        _ => drag,
    }
}

/// The selection once the task at `source` has moved to `landed`.
fn selection_once_moved(selection: Option<Selection>, source: Place, landed: Place) -> (kept: Option<
    Selection,
>)
    ensures
        selection is None ==> kept is None,
        selection is Some ==> kept is Some && kept->0@.buffer == selection->0@.buffer && kept->0@.place == (
        match place_after_removal(selection->0@.place, source) {
            Some(place) => place,
            None => landed,
        }),
{
    match selection {
        Some(selection) => match place_once_removed(selection.place, source) {
            Some(place) => Some(Selection { place, buffer: selection.buffer }),
            None => Some(Selection { place: landed, buffer: selection.buffer }),
        },
        None => None,
    }
}

} // verus!
