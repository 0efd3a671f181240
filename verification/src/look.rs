//! How the widgets of the board look while a task is dragged: the cursor
//! over a task, and the frame of a column's drop zone.

use vstd::prelude::*;

verus! {

/// The cursor that a task asks for.
#[derive(Debug, Clone, Copy, PartialEq, Eq, Structural)]
pub enum Cursor {
    /// The task can be taken up.
    Grab,
    /// The task is held.
    Grabbing,
}

/// How a column's drop zone is drawn.
#[derive(Debug, Clone, Copy, PartialEq, Eq, Structural)]
pub struct DropZoneLook {
    /// The zone is drawn as active: a task would land here.
    pub active: bool,
    /// The zone is toned down: it takes nothing of what is dragged.
    pub grayed_out: bool,
}

/// The cursor over a task: the held one while the task is dragged, the open
/// one while the pointer rests on a task that is not dragged, and no cursor
/// of the task's own otherwise.
pub fn drag_cursor(is_being_dragged: bool, hovered: bool) -> (cursor: Option<Cursor>)
    ensures
        is_being_dragged ==> cursor == Some(Cursor::Grabbing),
        !is_being_dragged && hovered ==> cursor == Some(Cursor::Grab),
        !is_being_dragged && !hovered ==> cursor is None,
{
    if is_being_dragged {
        Some(Cursor::Grabbing)
    } else if hovered {
        Some(Cursor::Grab)
    } else {
        None
    }
}

/// The look of a drop zone: active while something that it accepts is
/// dragged over it, toned down while something that it does not accept is
/// dragged anywhere.
pub fn drop_zone_look(is_being_dragged: bool, can_accept: bool, hovered: bool) -> (look: DropZoneLook)
    ensures
        look.active == (is_being_dragged && can_accept && hovered),
        look.grayed_out == (is_being_dragged && !can_accept),
{
    DropZoneLook {
        active: is_being_dragged && can_accept && hovered,
        grayed_out: is_being_dragged && !can_accept,
    }
}

} // verus!
