use kanban_board::components::board::{ChangeData, Model, Msg};
use kanban_board::status::Status;

fn submit(board: &mut Model, name: &str, assignee: &str, estimate: &str) {
    assert!(board.update(Msg::UpdateNewTaskName(name.to_string())));
    assert!(board.update(Msg::UpdateNewTaskAssignee(ChangeData::Select(assignee.to_string()))));
    assert!(board.update(Msg::UpdateNewTaskMandays(estimate.to_string())));
    assert!(board.update(Msg::NewTask));
}

// Tasks A (to do), B (in progress) and C (to do), in this order.
fn three_tasks() -> Model {
    let mut board = Model::create();
    submit(&mut board, "A", "🐱", "1");
    submit(&mut board, "B", "🐶", "2");
    submit(&mut board, "C", "🐹", "3");
    assert!(board.update(Msg::IncreaseStatus(1)));
    board
}

fn names(board: &Model, status: Status) -> Vec<String> {
    board.column(status).iter().map(|&i| board.tasks()[i].name.clone()).collect()
}

fn snapshot(board: &Model) -> Vec<(String, String, u32, Status)> {
    let mut all: Vec<(String, String, u32, Status)> = board
        .tasks()
        .iter()
        .map(|t| (t.name.clone(), t.assignee.clone(), t.estimate, t.status))
        .collect();
    let draft = board.new_task();
    all.push((draft.name.clone(), draft.assignee.clone(), draft.estimate, draft.status));
    all
}

fn estimate_after(text: &str) -> u32 {
    let mut board = Model::create();
    board.update(Msg::UpdateNewTaskMandays("7".to_string()));
    assert_eq!(board.new_task().estimate, 7);
    assert!(board.update(Msg::UpdateNewTaskMandays(text.to_string())));
    let expected = u32::from_str_radix(text, 10).unwrap_or(7);
    assert_eq!(board.new_task().estimate, expected);
    board.new_task().estimate
}

#[test]
fn a_new_board_is_empty() {
    let board = Model::create();
    assert!(board.tasks().is_empty());
    assert_eq!(board.new_task().name, "");
    assert_eq!(board.new_task().assignee, "");
    assert_eq!(board.new_task().estimate, 0);
    assert_eq!(board.new_task().status, Status::ToDo);
}

#[test]
fn the_form_fields_fill_the_draft() {
    let mut board = Model::create();
    assert!(board.update(Msg::UpdateNewTaskName("Ship manifest".to_string())));
    assert_eq!(board.new_task().name, "Ship manifest");
    assert!(board.update(Msg::UpdateNewTaskAssignee(ChangeData::Select("🐱".to_string()))));
    assert_eq!(board.new_task().assignee, "🐱");
    assert!(board.update(Msg::UpdateNewTaskMandays("5".to_string())));
    assert_eq!(board.new_task().estimate, 5);
    assert_eq!(board.new_task().name, "Ship manifest");
    assert_eq!(board.new_task().status, Status::ToDo);
    assert!(board.tasks().is_empty());
}

#[test]
fn only_a_selection_sets_the_assignee() {
    let mut board = Model::create();
    board.update(Msg::UpdateNewTaskAssignee(ChangeData::Select("🐶".to_string())));
    assert!(board.update(Msg::UpdateNewTaskAssignee(ChangeData::Value("🐱".to_string()))));
    assert_eq!(board.new_task().assignee, "🐶");
    assert!(board.update(Msg::UpdateNewTaskAssignee(ChangeData::Files)));
    assert_eq!(board.new_task().assignee, "🐶");
    board.update(Msg::UpdateNewTaskAssignee(ChangeData::Select(String::new())));
    assert_eq!(board.new_task().assignee, "");
}

#[test]
fn submitting_appends_a_task_to_do_and_clears_the_form() {
    let mut board = Model::create();
    board.update(Msg::UpdateNewTaskName("Ship manifest".to_string()));
    board.update(Msg::UpdateNewTaskAssignee(ChangeData::Select("🐱".to_string())));
    board.update(Msg::UpdateNewTaskMandays("5".to_string()));
    assert!(board.update(Msg::NewTask));
    assert_eq!(board.tasks().len(), 1);
    let task = &board.tasks()[0];
    assert_eq!(task.name, "Ship manifest");
    assert_eq!(task.assignee, "🐱");
    assert_eq!(task.estimate, 5);
    assert_eq!(task.status, Status::ToDo);
    assert_eq!(board.new_task().name, "");
    assert_eq!(board.new_task().assignee, "");
    assert_eq!(board.new_task().estimate, 0);
    assert_eq!(board.new_task().status, Status::ToDo);
}

#[test]
fn submitting_an_untouched_form_appends_a_blank_task() {
    let mut board = three_tasks();
    assert!(board.update(Msg::NewTask));
    assert_eq!(board.tasks().len(), 4);
    assert_eq!(board.tasks()[3].name, "");
    assert_eq!(board.tasks()[3].assignee, "");
    assert_eq!(board.tasks()[3].estimate, 0);
    assert_eq!(board.tasks()[3].status, Status::ToDo);
    assert_eq!(board.tasks()[0].name, "A");
    assert_eq!(board.tasks()[1].status, Status::InProgress);
}

#[test]
fn an_estimate_that_is_no_number_is_ignored() {
    let mut board = Model::create();
    assert!(board.update(Msg::UpdateNewTaskMandays("abc".to_string())));
    assert_eq!(board.new_task().estimate, 0);
    board.update(Msg::UpdateNewTaskMandays("12".to_string()));
    assert!(board.update(Msg::UpdateNewTaskMandays("abc".to_string())));
    assert_eq!(board.new_task().estimate, 12);
}

#[test]
fn an_ignored_estimate_changes_nothing_else() {
    let mut board = three_tasks();
    board.update(Msg::UpdateNewTaskName("D".to_string()));
    let before = snapshot(&board);
    assert!(board.update(Msg::UpdateNewTaskMandays("4h".to_string())));
    assert_eq!(snapshot(&board), before);
}

#[test]
fn estimates_are_read_in_base_ten() {
    assert_eq!(estimate_after("5"), 5);
    assert_eq!(estimate_after("0"), 0);
    assert_eq!(estimate_after("+5"), 5);
    assert_eq!(estimate_after("007"), 7);
    assert_eq!(estimate_after("000000000000000000000042"), 42);
    assert_eq!(estimate_after("120"), 120);
    assert_eq!(estimate_after("4294967295"), 4294967295);
}

#[test]
fn estimates_that_are_no_numerals_are_ignored() {
    assert_eq!(estimate_after(""), 7);
    assert_eq!(estimate_after("+"), 7);
    assert_eq!(estimate_after("-"), 7);
    assert_eq!(estimate_after("-1"), 7);
    assert_eq!(estimate_after("-0"), 7);
    assert_eq!(estimate_after("++5"), 7);
    assert_eq!(estimate_after("5+"), 7);
    assert_eq!(estimate_after(" 5"), 7);
    assert_eq!(estimate_after("5 "), 7);
    assert_eq!(estimate_after("1_000"), 7);
    assert_eq!(estimate_after("1.5"), 7);
    assert_eq!(estimate_after("12a"), 7);
    assert_eq!(estimate_after("0x10"), 7);
    assert_eq!(estimate_after("٣"), 7);
    assert_eq!(estimate_after("５"), 7);
}

#[test]
fn estimates_beyond_the_range_are_ignored() {
    assert_eq!(estimate_after("4294967296"), 7);
    assert_eq!(estimate_after("99999999999999999999"), 7);
    assert_eq!(estimate_after("+4294967296"), 7);
}

#[test]
fn columns_keep_the_order_of_the_tasks() {
    let board = three_tasks();
    assert_eq!(board.column(Status::ToDo), vec![0, 2]);
    assert_eq!(board.column(Status::InProgress), vec![1]);
    assert_eq!(names(&board, Status::ToDo), vec!["A", "C"]);
    assert_eq!(names(&board, Status::InProgress), vec!["B"]);
    assert!(board.column(Status::Review).is_empty());
    assert!(board.column(Status::Testing).is_empty());
    assert!(board.column(Status::Ready).is_empty());
    assert!(board.column(Status::Done).is_empty());
}

#[test]
fn a_moved_task_joins_its_new_column_by_position() {
    let mut board = three_tasks();
    assert!(board.update(Msg::IncreaseStatus(0)));
    assert_eq!(board.tasks()[0].status, Status::InProgress);
    assert_eq!(names(&board, Status::ToDo), vec!["C"]);
    assert_eq!(board.column(Status::ToDo), vec![2]);
    assert_eq!(board.column(Status::InProgress), vec![0, 1]);
    assert_eq!(names(&board, Status::InProgress), vec!["A", "B"]);
    assert_eq!(board.tasks()[0].name, "A");
    assert_eq!(board.tasks()[1].name, "B");
    assert_eq!(board.tasks()[2].name, "C");
}

#[test]
fn counts_are_the_lengths_of_the_columns() {
    let mut board = three_tasks();
    assert_eq!(board.count(Status::ToDo), 2);
    assert_eq!(board.count(Status::InProgress), 1);
    assert_eq!(board.count(Status::Review), 0);
    assert_eq!(board.count(Status::Done), 0);
    board.update(Msg::IncreaseStatus(0));
    assert_eq!(board.count(Status::ToDo), 1);
    assert_eq!(board.count(Status::InProgress), 2);
    let empty = Model::create();
    assert_eq!(empty.count(Status::ToDo), 0);
    assert!(empty.column(Status::ToDo).is_empty());
}

#[test]
fn every_task_stands_in_exactly_one_column() {
    let mut board = three_tasks();
    board.update(Msg::IncreaseStatus(2));
    board.update(Msg::IncreaseStatus(2));
    board.update(Msg::IncreaseStatus(2));
    let all = [
        Status::ToDo,
        Status::InProgress,
        Status::Review,
        Status::Testing,
        Status::Ready,
        Status::Done,
    ];
    let mut seen: Vec<usize> = Vec::new();
    for status in all {
        let column = board.column(status);
        assert_eq!(column.len(), board.count(status));
        for &i in &column {
            assert_eq!(board.tasks()[i].status, status);
        }
        seen.extend(column);
    }
    seen.sort();
    assert_eq!(seen, vec![0, 1, 2]);
    assert_eq!(board.column(Status::Testing), vec![2]);
}

#[test]
fn a_move_beyond_the_tasks_changes_nothing() {
    let mut board = three_tasks();
    board.update(Msg::UpdateNewTaskName("D".to_string()));
    let before = snapshot(&board);
    assert!(board.update(Msg::IncreaseStatus(99)));
    assert_eq!(snapshot(&board), before);
    assert!(board.update(Msg::DecreaseStatus(99)));
    assert_eq!(snapshot(&board), before);
    assert!(board.update(Msg::IncreaseStatus(3)));
    assert_eq!(snapshot(&board), before);
    assert!(board.update(Msg::DecreaseStatus(usize::MAX)));
    assert_eq!(snapshot(&board), before);
}

#[test]
fn a_move_on_an_empty_board_changes_nothing() {
    let mut board = Model::create();
    assert!(board.update(Msg::IncreaseStatus(0)));
    assert!(board.update(Msg::DecreaseStatus(0)));
    assert!(board.tasks().is_empty());
    assert_eq!(board.new_task().status, Status::ToDo);
}

#[test]
fn a_task_moves_right_up_to_done_and_stays() {
    let mut board = three_tasks();
    let path = [
        Status::Review,
        Status::Testing,
        Status::Ready,
        Status::Done,
        Status::Done,
    ];
    for expected in path {
        assert!(board.update(Msg::IncreaseStatus(1)));
        assert_eq!(board.tasks()[1].status, expected);
    }
    assert!(!board.tasks()[1].can_right());
    assert_eq!(board.tasks()[0].status, Status::ToDo);
    assert_eq!(board.tasks()[2].status, Status::ToDo);
}

#[test]
fn a_task_moves_left_down_to_to_do_and_stays() {
    let mut board = three_tasks();
    assert!(board.update(Msg::DecreaseStatus(1)));
    assert_eq!(board.tasks()[1].status, Status::ToDo);
    assert!(board.update(Msg::DecreaseStatus(1)));
    assert_eq!(board.tasks()[1].status, Status::ToDo);
    assert!(!board.tasks()[1].can_left());
    assert_eq!(board.column(Status::ToDo), vec![0, 1, 2]);
}

#[test]
fn a_move_keeps_the_other_fields() {
    let mut board = three_tasks();
    board.update(Msg::UpdateNewTaskName("draft".to_string()));
    board.update(Msg::IncreaseStatus(2));
    assert_eq!(board.tasks()[2].name, "C");
    assert_eq!(board.tasks()[2].assignee, "🐹");
    assert_eq!(board.tasks()[2].estimate, 3);
    assert_eq!(board.tasks()[2].status, Status::InProgress);
    assert_eq!(board.new_task().name, "draft");
    assert_eq!(board.tasks().len(), 3);
}
