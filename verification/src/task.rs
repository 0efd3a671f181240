//! One unit of work on the board.

use vstd::prelude::*;
use vstd::string::StringExecFns;
use crate::clock::{is_day_stamp, today_stamp};

verus! {

/// What a [`Task`] holds, as mathematical text.
pub struct TaskView {
    pub label: Seq<char>,
    pub date: Seq<char>,
    pub effort: Seq<char>,
}

/// A unit of work: a label, a free-form date and a free-form effort text.
/// None of the three is checked; a task without a label exists only while
/// it is being typed.
#[derive(Debug)]
pub struct Task {
    pub label: String,
    pub date: String,
    pub effort: String,
}

impl View for Task {
    type V = TaskView;

    open spec fn view(&self) -> TaskView {
        TaskView { label: self.label@, date: self.date@, effort: self.effort@ }
    }
}

impl Clone for Task {
    fn clone(&self) -> (copy: Self)
        ensures
            copy@ == self@,
    {
        Task { label: self.label.clone(), date: self.date.clone(), effort: self.effort.clone() }
    }
}

impl PartialEq for Task {
    fn eq(&self, other: &Self) -> (same: bool) {
        self.label == other.label && self.date == other.date && self.effort == other.effort
    }
}

impl vstd::std_specs::cmp::PartialEqSpecImpl for Task {
    open spec fn obeys_eq_spec() -> bool {
        true
    }

    open spec fn eq_spec(&self, other: &Self) -> bool {
        self@ == other@
    }
}

impl Default for Task {
    /// A blank task dated today.
    fn default() -> (task: Task)
        ensures
            task@.label.len() == 0,
            is_day_stamp(task@.date),
            task@.effort == "0h:0m"@,
    {
        Task::blank(today_stamp())
    }
}

impl Task {
    /// A task with the given texts.
    pub fn new(label: &str, date: &str, effort: &str) -> (task: Task)
        ensures
            task@ == (TaskView { label: label@, date: date@, effort: effort@ }),
    {
        Task { label: label.to_owned(), date: date.to_owned(), effort: effort.to_owned() }
    }

    /// A task that is yet to be typed: no label, the given date and no
    /// effort spent.
    pub fn blank(date: String) -> (task: Task)
        ensures
            task@ == (TaskView { label: Seq::empty(), date: date@, effort: "0h:0m"@ }),
    {
        Task { label: String::new(), date, effort: "0h:0m".to_owned() }
    }

    /// The line that shows the task on the board: its three texts with a
    /// bar between them.
    pub fn caption(&self) -> (line: String)
        ensures
            line@ == self@.label + " | "@ + self@.date + " | "@ + self@.effort,
    {
        let mut line = self.label.clone();
        line.append(" | ");
        line.append(self.date.as_str());
        line.append(" | ");
        line.append(self.effort.as_str());
        line
    }

    /// Whether the task has a label, which a task on the board must have.
    pub fn has_label(&self) -> (labelled: bool)
        ensures
            labelled == (self@.label.len() > 0),
    {
        !self.label.as_str().is_empty()
    }
}

} // verus!
