use task_fighter::page::Pages;
use task_fighter::page::kanban_page::{default_fetch_flags, KanbanPage};
use task_fighter::flags::{FILTER_ALL, FILTER_INACTIVE, ORDER_BY_DUE_DATE, ORDER_BY_PRIORITY, ORDER_REVERSED};
use task_fighter::message::Message;
use task_fighter::task::{Task, TaskPriority, TaskStatus};
use task_fighter::widget::kanban_area::{
    column_fill_color, column_label, column_of, drop_row, ColumnLabel, KanbanArea, Location,
    COLUMN_COUNT,
};

fn task(id: i32, title: &str, priority: TaskPriority, status: TaskStatus) -> Task {
    Task {
        id,
        project: "proj".to_string(),
        title: title.to_string(),
        detail: String::new(),
        priority,
        status,
    }
}

fn titles(area: &KanbanArea, col: usize) -> Vec<String> {
    area.column(col).iter().map(|t| t.title.clone()).collect()
}

fn sample_board() -> KanbanArea {
    let mut area = KanbanArea::default();
    area.set_tasks(&[
        task(1, "a", TaskPriority::High, TaskStatus::Pending),
        task(2, "b", TaskPriority::High, TaskStatus::Pending),
        task(3, "c", TaskPriority::High, TaskStatus::Pending),
        task(4, "d", TaskPriority::Low, TaskStatus::WorkInProgress),
    ]);
    area
}

#[test]
fn column_of_covers_every_combination() {
    assert_eq!(column_of(TaskPriority::High, TaskStatus::Pending), 0);
    assert_eq!(column_of(TaskPriority::Medium, TaskStatus::Pending), 1);
    assert_eq!(column_of(TaskPriority::Low, TaskStatus::Pending), 2);
    assert_eq!(column_of(TaskPriority::High, TaskStatus::WorkInProgress), 3);
    assert_eq!(column_of(TaskPriority::Medium, TaskStatus::WorkInProgress), 4);
    assert_eq!(column_of(TaskPriority::Low, TaskStatus::WorkInProgress), 5);
    assert_eq!(column_of(TaskPriority::High, TaskStatus::Complete), 6);
    assert_eq!(column_of(TaskPriority::Low, TaskStatus::Complete), 6);
    assert_eq!(column_of(TaskPriority::Medium, TaskStatus::Canceled), 7);
}

#[test]
fn default_board_is_empty() {
    let area = KanbanArea::default();
    for col in 0..COLUMN_COUNT {
        assert!(area.column(col).is_empty());
    }
}

#[test]
fn set_tasks_sorts_into_columns_and_appends() {
    let mut area = sample_board();
    assert_eq!(titles(&area, 0), vec!["a", "b", "c"]);
    assert_eq!(titles(&area, 5), vec!["d"]);
    area.set_tasks(&[
        task(5, "e", TaskPriority::High, TaskStatus::Pending),
        task(6, "f", TaskPriority::Medium, TaskStatus::Canceled),
    ]);
    assert_eq!(titles(&area, 0), vec!["a", "b", "c", "e"]);
    assert_eq!(titles(&area, 7), vec!["f"]);
    assert!(area.column(1).is_empty());
}

#[test]
fn pop_columns_hands_back_and_empties() {
    let mut area = sample_board();
    let cols = area.pop_columns();
    assert_eq!(cols.len(), COLUMN_COUNT);
    assert_eq!(cols[0].len(), 3);
    assert_eq!(cols[5][0].title, "d");
    for col in 0..COLUMN_COUNT {
        assert!(area.column(col).is_empty());
    }
}

#[test]
fn move_down_within_column_counts_one_row_less() {
    let mut area = sample_board();
    // drag "a" onto the slot before "c" (row 2): lands between b and c
    area.move_item(Location { col: 0, row: 0 }, Location { col: 0, row: 2 });
    assert_eq!(titles(&area, 0), vec!["b", "a", "c"]);
}

#[test]
fn move_up_within_column() {
    let mut area = sample_board();
    area.move_item(Location { col: 0, row: 2 }, Location { col: 0, row: 0 });
    assert_eq!(titles(&area, 0), vec!["c", "a", "b"]);
}

#[test]
fn move_to_other_column_end_with_drop_zone_row() {
    let mut area = sample_board();
    area.move_item(Location { col: 0, row: 1 }, Location { col: 5, row: usize::MAX });
    assert_eq!(titles(&area, 0), vec!["a", "c"]);
    assert_eq!(titles(&area, 5), vec!["d", "b"]);
}

#[test]
fn move_from_missing_row_changes_nothing() {
    let mut area = sample_board();
    area.move_item(Location { col: 1, row: 0 }, Location { col: 0, row: 0 });
    assert_eq!(titles(&area, 0), vec!["a", "b", "c"]);
    assert!(area.column(1).is_empty());
}

#[test]
fn move_across_and_back_restores() {
    let mut area = sample_board();
    area.move_item(Location { col: 0, row: 1 }, Location { col: 5, row: 0 });
    assert_eq!(titles(&area, 5), vec!["b", "d"]);
    area.move_item(Location { col: 5, row: 0 }, Location { col: 0, row: 1 });
    assert_eq!(titles(&area, 0), vec!["a", "b", "c"]);
    assert_eq!(titles(&area, 5), vec!["d"]);
}

#[test]
fn move_keeps_card_count() {
    let mut area = sample_board();
    area.move_item(Location { col: 0, row: 0 }, Location { col: 6, row: 3 });
    let total: usize = (0..COLUMN_COUNT).map(|c| area.column(c).len()).sum();
    assert_eq!(total, 4);
}

#[test]
fn double_click_opens_card_for_editing() {
    let area = sample_board();
    let mut edited = task(0, "none", TaskPriority::Low, TaskStatus::Pending);
    let mut next = Pages::Kanban;
    area.on_card_double_click(Location { col: 0, row: 3 }, &mut edited, &mut next);
    assert_eq!(edited.id, 0);
    assert_eq!(next, Pages::Kanban);
    area.on_card_double_click(Location { col: 0, row: 1 }, &mut edited, &mut next);
    assert_eq!(edited.id, 2);
    assert_eq!(edited.title, "b");
    assert_eq!(next, Pages::EditTask);
    assert_eq!(area.column(0).len(), 3);
}

#[test]
fn drop_row_above_or_below() {
    let cur = Location { col: 2, row: 4 };
    assert_eq!(drop_row(cur, cur, false), 4);
    assert_eq!(drop_row(Location { col: 1, row: 0 }, cur, true), 4);
    assert_eq!(drop_row(Location { col: 1, row: 0 }, cur, false), 5);
}

#[test]
fn column_labels() {
    assert_eq!(column_label(0), ColumnLabel::Pair(Message::Pending, Message::High));
    assert_eq!(column_label(4), ColumnLabel::Pair(Message::WorkInProgress, Message::Medium));
    assert_eq!(column_label(6), ColumnLabel::Single(Message::Complete));
    assert_eq!(column_label(7), ColumnLabel::Single(Message::Cancel));
    assert_eq!(column_label(8), ColumnLabel::Area(9));
}

#[test]
fn column_colors() {
    assert_eq!(column_fill_color(0), (80, 0, 0));
    assert_eq!(column_fill_color(3), (80, 0, 0));
    assert_eq!(column_fill_color(1), (80, 80, 0));
    assert_eq!(column_fill_color(5), (0, 80, 0));
    assert_eq!(column_fill_color(6), (0, 80, 80));
    assert_eq!(column_fill_color(7), (40, 40, 40));
}

#[test]
fn kanban_page_loads_once_and_settles_on_exit() {
    let mut page = KanbanPage::new();
    let mut tasks = Some(vec![
        task(1, "a", TaskPriority::High, TaskStatus::Pending),
        task(2, "b", TaskPriority::Low, TaskStatus::Complete),
    ]);
    page.on_entry(&mut tasks);
    assert!(tasks.is_none());
    assert!(!page.load(false, &Some(vec![task(9, "z", TaskPriority::High, TaskStatus::Pending)])));
    assert!(page.kanban_area().column(0).is_empty());
    let list = Some(vec![
        task(1, "a", TaskPriority::High, TaskStatus::Pending),
        task(2, "b", TaskPriority::Low, TaskStatus::Complete),
    ]);
    assert!(page.load(true, &list));
    assert!(page.load(true, &list));
    assert_eq!(page.kanban_area().column(0).len(), 1);
    assert_eq!(page.kanban_area().column(6).len(), 1);
    // move "a" to work in progress / medium, "b" to canceled
    page.move_item(Location { col: 0, row: 0 }, Location { col: 4, row: 0 });
    page.move_item(Location { col: 6, row: 0 }, Location { col: 7, row: 0 });
    let mut cached = Some(Vec::new());
    let saved = page.on_exit(&mut cached);
    assert!(cached.is_none());
    assert_eq!(saved.len(), 2);
    assert_eq!(saved[0].id, 1);
    assert_eq!(saved[0].priority, TaskPriority::Medium);
    assert_eq!(saved[0].status, TaskStatus::WorkInProgress);
    assert_eq!(saved[1].id, 2);
    assert_eq!(saved[1].priority, TaskPriority::Low);
    assert_eq!(saved[1].status, TaskStatus::Canceled);
    // the saved tasks sort back into the columns they were saved from
    let mut again = KanbanArea::default();
    again.set_tasks(&saved);
    assert_eq!(titles(&again, 4), vec!["a"]);
    assert_eq!(titles(&again, 7), vec!["b"]);
}

#[test]
fn unmoved_board_saves_the_same_tasks() {
    let list = vec![
        task(1, "a", TaskPriority::Low, TaskStatus::WorkInProgress),
        task(2, "b", TaskPriority::High, TaskStatus::Canceled),
        task(3, "c", TaskPriority::Medium, TaskStatus::Pending),
        task(4, "d", TaskPriority::Low, TaskStatus::WorkInProgress),
    ];
    let mut page = KanbanPage::new();
    let mut cached = None;
    page.on_entry(&mut cached);
    let fetched = Some(list.clone());
    assert!(page.load(true, &fetched));
    assert!(page.load(true, &fetched));
    let saved = page.on_exit(&mut cached);
    let mut ids: Vec<i32> = saved.iter().map(|t| t.id).collect();
    ids.sort();
    assert_eq!(ids, vec![1, 2, 3, 4]);
    for t in &saved {
        let original = list.iter().find(|o| o.id == t.id).unwrap();
        assert_eq!((t.priority, t.status), (original.priority, original.status));
        assert_eq!((&t.project, &t.title, &t.detail), (&original.project, &original.title, &original.detail));
    }
}

#[test]
fn kanban_default_fetch_flags() {
    let (filter, order) = default_fetch_flags();
    assert_eq!(filter.bits(), FILTER_ALL & !FILTER_INACTIVE);
    assert_eq!(order.bits(), ORDER_BY_PRIORITY | ORDER_BY_DUE_DATE | ORDER_REVERSED);
}

#[test]
fn sorting_keeps_every_task() {
    let mut area = sample_board();
    let more = [
        task(7, "g", TaskPriority::Medium, TaskStatus::WorkInProgress),
        task(8, "h", TaskPriority::Medium, TaskStatus::WorkInProgress),
        task(9, "i", TaskPriority::High, TaskStatus::Complete),
    ];
    area.set_tasks(&more);
    let mut ids: Vec<i32> = (0..COLUMN_COUNT).flat_map(|c| area.column(c).iter().map(|t| t.id).collect::<Vec<_>>()).collect();
    ids.sort();
    assert_eq!(ids, vec![1, 2, 3, 4, 7, 8, 9]);
    assert_eq!(titles(&area, 4), vec!["g", "h"]);
}
