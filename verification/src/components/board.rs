//! The board: the tasks in the order they were added, the form a new task is
//! written in, and the messages that change either.

use vstd::prelude::*;
use crate::status::Status;
use crate::task::{Task, TaskView};
use crate::text::{decimal_u32, parse_decimal};

verus! {

/// What a form control reports when its value changes.
#[derive(Debug)]
pub enum ChangeData {
    /// The text of an input.
    Value(String),
    /// The value of the option that a selection now stands at.
    Select(String),
    /// A choice of files, of which the board reads nothing.
    Files,
}

/// A message to the board.
#[derive(Debug)]
pub enum Msg {
    /// Move the task at a position one stage to the right.
    IncreaseStatus(usize),
    /// Move the task at a position one stage to the left.
    DecreaseStatus(usize),
    /// The form's name field now holds this text.
    UpdateNewTaskName(String),
    /// The form's assignee control changed.
    UpdateNewTaskAssignee(ChangeData),
    /// The form's estimate field now holds this text.
    UpdateNewTaskMandays(String),
    /// Add the form's task to the board.
    NewTask,
}

/// The board's state.
pub struct Model {
    tasks: Vec<Task>,
    new_task: Task,
}

/// The mathematical value of a board: its tasks, oldest first, and the draft
/// in its form.
pub struct ModelView {
    pub tasks: Seq<TaskView>,
    pub draft: TaskView,
}

/// The values of a run of tasks, in the same order.
pub open spec fn task_views(tasks: Seq<Task>) -> Seq<TaskView> {
    tasks.map_values(|task: Task| task@)
}

/// The positions of the tasks that stand at a status, in the order of the
/// tasks themselves.
pub open spec fn column_of(tasks: Seq<TaskView>, status: Status) -> Seq<int>
    decreases tasks.len(),
{
    if tasks.len() == 0 {
        Seq::empty()
    } else {
        let before = column_of(tasks.drop_last(), status);
        if tasks.last().status == status {
            before.push(tasks.len() - 1)
        } else {
            before
        }
    }
}

/// A run of positions as mathematical integers.
pub open spec fn positions(column: Seq<usize>) -> Seq<int> {
    column.map_values(|position: usize| position as int)
}

impl ModelView {
    /// The board with the status of the task at a position replaced; a position
    /// beyond the last task leaves the board as it is.
    pub open spec fn with_status_at(self, idx: int, status: Status) -> ModelView {
        if 0 <= idx < self.tasks.len() {
            ModelView { tasks: self.tasks.update(idx, self.tasks[idx].with_status(status)), ..self }
        } else {
            self
        }
    }

    /// The board after the draft has been added as a task that is still to be
    /// done, with an empty form.
    pub open spec fn submitted(self) -> ModelView {
        ModelView {
            tasks: self.tasks.push(self.draft.with_status(Status::ToDo)),
            draft: TaskView::empty(),
        }
    }

    /// The board after a message.
    pub open spec fn step(self, msg: Msg) -> ModelView {
        match msg {
            Msg::UpdateNewTaskName(text) => ModelView {
                draft: TaskView { name: text@, ..self.draft },
                ..self
            },
            Msg::UpdateNewTaskAssignee(change) => match change {
                ChangeData::Select(value) => ModelView {
                    draft: TaskView { assignee: value@, ..self.draft },
                    ..self
                },
                _ => self,
            },
            Msg::UpdateNewTaskMandays(text) => match decimal_u32(text@) {
                Some(hours) => ModelView {
                    draft: TaskView { estimate: hours as nat, ..self.draft },
                    ..self
                },
                None => self,
            },
            Msg::NewTask => self.submitted(),
            Msg::IncreaseStatus(idx) => if idx < self.tasks.len() {
                self.with_status_at(idx as int, self.tasks[idx as int].status.spec_right())
            } else {
                self
            },
            Msg::DecreaseStatus(idx) => if idx < self.tasks.len() {
                self.with_status_at(idx as int, self.tasks[idx as int].status.spec_left())
            } else {
                self
            },
        }
    }
}

impl View for Model {
    type V = ModelView;

    closed spec fn view(&self) -> ModelView {
        ModelView { tasks: task_views(self.tasks@), draft: self.new_task@ }
    }
}

impl Model {
    /// The task at a position, to be changed in place, if there is one.
    fn find_task_by(&mut self, idx: usize) -> (found: Option<&mut Task>)
        ensures
            found is Some <==> idx < old(self).tasks.len(),
            match found {
                Some(task) => {
                    &&& *task == old(self).tasks[idx as int]
                    &&& final(self).tasks@ == old(self).tasks@.update(idx as int, *final(task))
                    &&& final(self).new_task == old(self).new_task
                },
                None => *final(self) == *old(self),
            },
    {
        if idx < self.tasks.len() {
            Some(&mut self.tasks[idx])
        } else {
            None
        }
    }

    /// Empties the form.
    fn clear_form(&mut self)
        ensures
            final(self).tasks == old(self).tasks,
            final(self).new_task@ == TaskView::empty(),
    {
        self.new_task = Task::create_empty();
    }

    /// Adds a task that is still to be done behind the others.
    fn add_new_task(&mut self, name: String, assignee: String, estimate: u32)
        ensures
            final(self).new_task == old(self).new_task,
            final(self).tasks@ == old(self).tasks@.push(
                (Task { name, assignee, estimate, status: Status::ToDo }),
            ),
    {
        self.tasks.push(Task { name, assignee, estimate, status: Status::ToDo });
    }

    /// A board without tasks and with an empty form.
    pub fn create() -> (model: Model)
        ensures
            model@ == (ModelView { tasks: Seq::empty(), draft: TaskView::empty() }),
    {
        let model = Model { tasks: Vec::new(), new_task: Task::create_empty() };
        assert(task_views(model.tasks@) =~= Seq::empty());
        model
    }

    /// The tasks of the board, oldest first.
    pub fn tasks(&self) -> (tasks: &Vec<Task>)
        ensures
            task_views(tasks@) == self@.tasks,
    {
        &self.tasks
    }

    /// The draft that stands in the form.
    pub fn new_task(&self) -> (draft: &Task)
        ensures
            draft@ == self@.draft,
    {
        &self.new_task
    }

    /// The positions of the tasks that stand at a status, in the order in
    /// which the tasks were added.
    pub fn column(&self, status: Status) -> (column: Vec<usize>)
        ensures
            positions(column@) == column_of(self@.tasks, status),
    {
        let mut column: Vec<usize> = Vec::new();
        let mut i: usize = 0;
        while i < self.tasks.len()
            invariant
                i <= self.tasks.len(),
                self@.tasks.len() == self.tasks.len(),
                positions(column@) == column_of(self@.tasks.take(i as int), status),
            decreases self.tasks.len() - i,
        {
            assert(self@.tasks.take(i + 1).drop_last() =~= self@.tasks.take(i as int));
            if self.tasks[i].status == status {
                column.push(i);
            }
            i += 1;
        }
        assert(self@.tasks.take(i as int) =~= self@.tasks);
        column
    }

    /// How many tasks stand at a status.
    pub fn count(&self, status: Status) -> (count: usize)
        ensures
            count == column_of(self@.tasks, status).len(),
    {
        let mut count: usize = 0;
        let mut i: usize = 0;
        while i < self.tasks.len()
            invariant
                i <= self.tasks.len(),
                self@.tasks.len() == self.tasks.len(),
                count <= i,
                count == column_of(self@.tasks.take(i as int), status).len(),
            decreases self.tasks.len() - i,
        {
            assert(self@.tasks.take(i + 1).drop_last() =~= self@.tasks.take(i as int));
            if self.tasks[i].status == status {
                count += 1;
            }
            i += 1;
        }
        assert(self@.tasks.take(i as int) =~= self@.tasks);
        count
    }

    /// Applies a message to the board and says whether the board is to be
    /// drawn again, which it always is.
    pub fn update(&mut self, msg: Msg) -> (render: bool)
        ensures
            render,
            final(self)@ == old(self)@.step(msg),
    {
        match msg {
            Msg::UpdateNewTaskName(val) => {
                self.new_task.name = val;
            },
            Msg::UpdateNewTaskAssignee(val) => {
                if let ChangeData::Select(v) = val {
                    self.new_task.assignee = v;
                }
            },
            Msg::UpdateNewTaskMandays(val) => {
                if let Some(v) = parse_decimal(val.as_str()) {
                    self.new_task.estimate = v;
                }
            },
            Msg::NewTask => {
                let name = self.new_task.name.clone();
                let assignee = self.new_task.assignee.clone();
                let estimate = self.new_task.estimate;
                self.add_new_task(name, assignee, estimate);
                self.clear_form();
                assert(self@.tasks =~= old(self)@.submitted().tasks);
            },
            Msg::IncreaseStatus(idx) => {
                match self.find_task_by(idx) {
                    None => (),
                    Some(task) => {
                        task.status = task.status.right();
                    },
                }
                assert(self@.tasks =~= old(self)@.step(msg).tasks);
            },
            Msg::DecreaseStatus(idx) => {
                match self.find_task_by(idx) {
                    None => (),
                    Some(task) => {
                        task.status = task.status.left();
                    },
                }
                assert(self@.tasks =~= old(self)@.step(msg).tasks);
            },
        }
        true
    }
}

/// A column lists exactly the positions of the tasks at its status, each
/// once and in increasing order: the tasks of a column keep the order in which
/// they stand on the board.
pub proof fn lemma_column_is_stable(tasks: Seq<TaskView>, status: Status)
    ensures
        forall|k: int|
            0 <= k < column_of(tasks, status).len() ==> {
                &&& 0 <= #[trigger] column_of(tasks, status)[k] < tasks.len()
                &&& tasks[column_of(tasks, status)[k]].status == status
            },
        forall|j: int, k: int|
            0 <= j < k < column_of(tasks, status).len() ==> column_of(tasks, status)[j]
                < column_of(tasks, status)[k],
        forall|p: int|
            0 <= p < tasks.len() && (#[trigger] tasks[p]).status == status ==> column_of(
                tasks,
                status,
            ).contains(p),
    decreases tasks.len(),
{
    if tasks.len() > 0 {
        let front = tasks.drop_last();
        let before = column_of(front, status);
        let column = column_of(tasks, status);
        lemma_column_is_stable(front, status);
        assert forall|p: int|
            0 <= p < tasks.len() && (#[trigger] tasks[p]).status == status implies column.contains(
            p,
        ) by {
            if p < front.len() {
                assert(front[p].status == status);
                let k = choose|k: int| 0 <= k < before.len() && before[k] == p;
                assert(column[k] == p);
            } else {
                assert(column[column.len() - 1] == p);
            }
        }
    }
}

/// Every task stands in the column of its own status and in no other.
pub proof fn lemma_columns_part_the_tasks(tasks: Seq<TaskView>, status: Status, p: int)
    requires
        0 <= p < tasks.len(),
    ensures
        column_of(tasks, status).contains(p) <==> tasks[p].status == status,
{
    lemma_column_is_stable(tasks, status);
}

/// A move of a task that is not there changes nothing, neither to the right
/// nor to the left.
pub proof fn lemma_move_beyond_the_tasks(board: ModelView, idx: usize)
    requires
        idx >= board.tasks.len(),
    ensures
        board.step(Msg::IncreaseStatus(idx)) == board,
        board.step(Msg::DecreaseStatus(idx)) == board,
{
}

/// A move changes the status of the one task it names, by one stage, and
/// nothing else on the board.
pub proof fn lemma_move_changes_one_status(board: ModelView, idx: usize)
    requires
        idx < board.tasks.len(),
    ensures
        board.step(Msg::IncreaseStatus(idx)).draft == board.draft,
        board.step(Msg::IncreaseStatus(idx)).tasks == board.tasks.update(
            idx as int,
            board.tasks[idx as int].with_status(board.tasks[idx as int].status.spec_right()),
        ),
        board.step(Msg::DecreaseStatus(idx)).draft == board.draft,
        board.step(Msg::DecreaseStatus(idx)).tasks == board.tasks.update(
            idx as int,
            board.tasks[idx as int].with_status(board.tasks[idx as int].status.spec_left()),
        ),
{
}

/// After a move the task that moved stands in the column of its new status,
/// and every other task in the column it stood in before. Since a column
/// lists its positions in increasing order, the tasks that did not move keep
/// their order among themselves.
pub proof fn lemma_move_between_columns(board: ModelView, idx: usize, status: Status, p: int)
    requires
        idx < board.tasks.len(),
        0 <= p < board.tasks.len(),
    ensures
        column_of(board.step(Msg::IncreaseStatus(idx)).tasks, status).contains(p) <==> if p == idx {
            status == board.tasks[p].status.spec_right()
        } else {
            column_of(board.tasks, status).contains(p)
        },
        column_of(board.step(Msg::DecreaseStatus(idx)).tasks, status).contains(p) <==> if p == idx {
            status == board.tasks[p].status.spec_left()
        } else {
            column_of(board.tasks, status).contains(p)
        },
{
    lemma_columns_part_the_tasks(board.tasks, status, p);
    lemma_columns_part_the_tasks(board.step(Msg::IncreaseStatus(idx)).tasks, status, p);
    lemma_columns_part_the_tasks(board.step(Msg::DecreaseStatus(idx)).tasks, status, p);
}

/// An estimate that is no number that fits leaves the board as it was.
pub proof fn lemma_estimate_ignored(board: ModelView, text: String)
    requires
        decimal_u32(text@) is None,
    ensures
        board.step(Msg::UpdateNewTaskMandays(text)) == board,
{
}

/// Adding the draft puts one task behind the others, which stay as they
/// were; the new task is still to be done, whatever status the draft had, and
/// the form is empty afterwards.
pub proof fn lemma_submit_appends(board: ModelView)
    ensures
        board.step(Msg::NewTask).tasks.len() == board.tasks.len() + 1,
        board.step(Msg::NewTask).tasks.drop_last() == board.tasks,
        board.step(Msg::NewTask).tasks.last() == board.draft.with_status(Status::ToDo),
        board.step(Msg::NewTask).draft == TaskView::empty(),
{
}

} // verus!
