//! A task of the board: what it is called, who works on it, how long it is
//! expected to take, and the stage it has reached.

use vstd::prelude::*;
use vstd::string::StringExecFns;
use crate::status::Status;
use crate::text::{decimal_string, decimal_text};

verus! {

/// A task as it stands on the board.
#[derive(Debug)]
pub struct Task {
    pub name: String,
    pub assignee: String,
    /// The expected effort, in hours.
    pub estimate: u32,
    pub status: Status,
}

/// The mathematical value of a task.
pub struct TaskView {
    pub name: Seq<char>,
    pub assignee: Seq<char>,
    pub estimate: nat,
    pub status: Status,
}

impl TaskView {
    /// The task of an untouched form: no name, no assignee, no hours, not yet begun.
    pub open spec fn empty() -> TaskView {
        TaskView { name: Seq::empty(), assignee: Seq::empty(), estimate: 0, status: Status::ToDo }
    }

    /// The estimate as a card shows it: the hours in base ten and an `h`.
    pub open spec fn estimate_label(self) -> Seq<char> {
        decimal_text(self.estimate).push('h')
    }

    /// The task with another status and everything else as it was.
    pub open spec fn with_status(self, status: Status) -> TaskView {
        TaskView { status, ..self }
    }
}

impl View for Task {
    type V = TaskView;

    open spec fn view(&self) -> TaskView {
        TaskView {
            name: self.name@,
            assignee: self.assignee@,
            estimate: self.estimate as nat,
            status: self.status,
        }
    }
}

impl Task {
    /// The task of an untouched form.
    pub fn create_empty() -> (task: Task)
        ensures
            task@ == TaskView::empty(),
    {
        Task { name: String::new(), assignee: String::new(), estimate: 0, status: Status::ToDo }
    }

    /// The estimate as a card shows it, such as `5h`.
    pub fn estimate_label(&self) -> (label: String)
        ensures
            label@ == self@.estimate_label(),
    {
        let mut label = decimal_string(self.estimate);
        proof {
            reveal_strlit("h");
        }
        label.append("h");
        label
    }

    /// Whether the task has a stage to its left to move to.
    pub fn can_left(&self) -> (can: bool)
        ensures
            can == (self.status != Status::ToDo),
            can == (self.status.spec_left() != self.status),
    {
        self.status != Status::ToDo
    }

    /// Whether the task has a stage to its right to move to.
    pub fn can_right(&self) -> (can: bool)
        ensures
            can == (self.status != Status::Done),
            can == (self.status.spec_right() != self.status),
    {
        self.status != Status::Done
    }
}

} // verus!
