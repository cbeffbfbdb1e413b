//! The stages of the task pipeline and their order.

use vstd::prelude::*;
use vstd::string::StringExecFns;
use crate::text::same_text;

verus! {

/// One stage of the fixed pipeline, from `ToDo` on the left to `Done` on the right.
#[derive(Clone, Copy, Debug, PartialEq, Eq, Structural)]
pub enum Status {
    ToDo,
    InProgress,
    Review,
    Testing,
    Ready,
    Done,
}

impl Status {
    /// The position of the stage in the pipeline, counted from the left.
    pub open spec fn position(self) -> int {
        match self {
            Status::ToDo => 0,
            Status::InProgress => 1,
            Status::Review => 2,
            Status::Testing => 3,
            Status::Ready => 4,
            Status::Done => 5,
        }
    }

    /// The stage at a position; positions beyond either end give the end itself.
    pub open spec fn at(position: int) -> Status {
        if position <= 0 {
            Status::ToDo
        } else if position == 1 {
            Status::InProgress
        } else if position == 2 {
            Status::Review
        } else if position == 3 {
            Status::Testing
        } else if position == 4 {
            Status::Ready
        } else {
            Status::Done
        }
    }

    /// The left neighbour of a stage, the stage itself at the left end.
    pub open spec fn spec_left(self) -> Status {
        Status::at(self.position() - 1)
    }

    /// The right neighbour of a stage, the stage itself at the right end.
    pub open spec fn spec_right(self) -> Status {
        Status::at(self.position() + 1)
    }

    /// The lowercase identifier of a stage.
    pub open spec fn key(self) -> Seq<char> {
        match self {
            Status::ToDo => "todo"@,
            Status::InProgress => "in_progress"@,
            Status::Review => "review"@,
            Status::Testing => "testing"@,
            Status::Ready => "ready"@,
            Status::Done => "done"@,
        }
    }

    /// The text that a stage is shown under.
    pub open spec fn label(self) -> Seq<char> {
        match self {
            Status::ToDo => "To be done"@,
            Status::InProgress => "In progress"@,
            Status::Review => "Review"@,
            Status::Testing => "Testing"@,
            Status::Ready => "Ready"@,
            Status::Done => "Done"@,
        }
    }

    /// The stage that an identifier stands for; a text that is no stage's
    /// identifier stands for `ToDo`.
    pub open spec fn parse(key: Seq<char>) -> Status {
        if key == "in_progress"@ {
            Status::InProgress
        } else if key == "review"@ {
            Status::Review
        } else if key == "testing"@ {
            Status::Testing
        } else if key == "ready"@ {
            Status::Ready
        } else if key == "done"@ {
            Status::Done
        } else {
            Status::ToDo
        }
    }

    /// Moves one stage to the left; `ToDo` stays where it is.
    pub fn left(&self) -> (r: Status)
        ensures
            r == self.spec_left(),
    {
        match self {
            Status::Done => Status::Ready,
            Status::Ready => Status::Testing,
            Status::Testing => Status::Review,
            Status::Review => Status::InProgress,
            Status::InProgress => Status::ToDo,
            Status::ToDo => Status::ToDo,
        }
    }

    /// Moves one stage to the right; `Done` stays where it is.
    pub fn right(&self) -> (r: Status)
        ensures
            r == self.spec_right(),
    {
        match self {
            Status::ToDo => Status::InProgress,
            Status::InProgress => Status::Review,
            Status::Review => Status::Testing,
            Status::Testing => Status::Ready,
            Status::Ready => Status::Done,
            Status::Done => Status::Done,
        }
    }

    /// The text that the stage is shown under.
    pub fn name(&self) -> (r: &'static str)
        ensures
            r@ == self.label(),
    {
        match self {
            Status::ToDo => "To be done",
            Status::InProgress => "In progress",
            Status::Review => "Review",
            Status::Testing => "Testing",
            Status::Ready => "Ready",
            Status::Done => "Done",
        }
    }

    /// The lowercase identifier of the stage, as an owned string.
    pub fn to_string(&self) -> (r: String)
        ensures
            r@ == self.key(),
    {
        match self {
            Status::ToDo => String::from_str("todo"),
            Status::InProgress => String::from_str("in_progress"),
            Status::Review => String::from_str("review"),
            Status::Testing => String::from_str("testing"),
            Status::Ready => String::from_str("ready"),
            Status::Done => String::from_str("done"),
        }
    }
}

impl From<&str> for Status {
    /// Reads a stage from its identifier; any other text gives `ToDo`.
    fn from(s: &str) -> (r: Status) {
        if same_text(s, "in_progress") {
            Status::InProgress
        } else if same_text(s, "review") {
            Status::Review
        } else if same_text(s, "testing") {
            Status::Testing
        } else if same_text(s, "ready") {
            Status::Ready
        } else if same_text(s, "done") {
            Status::Done
        } else {
            Status::ToDo
        }
    }
}

impl vstd::std_specs::convert::FromSpecImpl<&str> for Status {
    open spec fn obeys_from_spec() -> bool {
        true
    }

    open spec fn from_spec(s: &str) -> Status {
        Status::parse(s@)
    }
}

/// Stepping left and then right comes back to every stage but `ToDo`, and
/// stepping right and then left comes back to every stage but `Done`.
pub proof fn lemma_steps_cancel(s: Status)
    ensures
        s != Status::ToDo ==> s.spec_left().spec_right() == s,
        s != Status::Done ==> s.spec_right().spec_left() == s,
{
}

/// The two ends of the pipeline stay where they are, however often the step
/// beyond them is taken.
pub proof fn lemma_ends_stay()
    ensures
        Status::ToDo.spec_left() == Status::ToDo,
        Status::Done.spec_right() == Status::Done,
        Status::ToDo.spec_left().spec_left() == Status::ToDo,
        Status::Done.spec_right().spec_right() == Status::Done,
{
}

/// A step moves a stage by exactly one position, except at the end it steps
/// towards.
pub proof fn lemma_step_positions(s: Status)
    ensures
        s.spec_left().position() == if s == Status::ToDo { 0 } else { s.position() - 1 },
        s.spec_right().position() == if s == Status::Done { 5 } else { s.position() + 1 },
        Status::at(s.position()) == s,
{
}

/// The six identifiers differ from one another.
pub proof fn lemma_keys_differ(a: Status, b: Status)
    ensures
        a.key() == b.key() <==> a == b,
{
    reveal_strlit("todo");
    reveal_strlit("in_progress");
    reveal_strlit("review");
    reveal_strlit("testing");
    reveal_strlit("ready");
    reveal_strlit("done");
    if a != b && a.key() == b.key() {
        assert(a.key().len() == b.key().len());
        assert(a.key()[0] == b.key()[0]);
    }
}

/// Reading a stage's identifier gives the stage back.
pub proof fn lemma_parse_key(s: Status)
    ensures
        Status::parse(s.key()) == s,
{
    lemma_keys_differ(s, Status::ToDo);
    lemma_keys_differ(s, Status::InProgress);
    lemma_keys_differ(s, Status::Review);
    lemma_keys_differ(s, Status::Testing);
    lemma_keys_differ(s, Status::Ready);
    lemma_keys_differ(s, Status::Done);
}

} // verus!
