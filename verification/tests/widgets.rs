use task_fighter::flags::{
    TaskFilterFlags, TaskOrderFlags, TaskSearchFlags, FILTER_ACTIVE, FILTER_ALL, FILTER_INACTIVE,
    ORDER_REVERSED, SEARCH_ENABLE_REGEX, SEARCH_TITLE,
};
use task_fighter::message::{message_id, Message};
use task_fighter::search_condition_modal::ModalResult as SearchResult;
use task_fighter::task::{
    priority_at, priority_index, DailyTask, MonthlyTask, Task, TaskPriority, TaskStatus,
    WeeklyTask, Weekday,
};
use task_fighter::warning_modal::WarningModal;
use task_fighter::widget::about_modal::AboutModal;
use task_fighter::widget::daily_task_edit::DailyTaskEdit;
use task_fighter::widget::monthly_task_edit::{day_options, MonthlyTaskEdit};
use task_fighter::widget::search_condition_modal::SearchConditionModal;
use task_fighter::widget::task_table::{is_done, priority_style, status_icon, TaskTable};
use task_fighter::widget::weekly_task_edit::{weekday_options, WeeklyTaskEdit};
use task_fighter::widget::weekly_task_table::{duration, weekday_to_string, WeeklyTaskTable};
use task_fighter::widget::yes_no_modal::{ModalResult, YesNoModal};
use task_fighter::yes_no_cancel_popup::{PopupResult, YesNoCancelPopup};

fn task(id: i32, project: &str, title: &str) -> Task {
    Task {
        id,
        project: project.to_string(),
        title: title.to_string(),
        detail: String::new(),
        priority: TaskPriority::Medium,
        status: TaskStatus::Pending,
    }
}

fn weekly() -> WeeklyTask {
    WeeklyTask {
        id: 3,
        active: true,
        project: "p".to_string(),
        title: "gym".to_string(),
        detail: String::new(),
        priority: TaskPriority::Low,
        start_day: Weekday::Monday,
        due_day: Weekday::Friday,
    }
}

#[test]
fn task_table_records_edit_click() {
    let tasks = vec![task(1, "p", "a"), task(2, "p", "b")];
    let mut table = TaskTable::new(&tasks);
    assert!(!table.clicked());
    assert!(table.clicked_task().is_none());
    assert_eq!(table.tasks().len(), 2);
    table.on_edit_clicked(1);
    assert!(table.clicked());
    assert_eq!(table.clicked_task().unwrap().id, 2);
    // reading does not forget the click
    assert!(table.clicked());
    assert_eq!(table.clicked_task().unwrap().id, 2);
    table.on_edit_clicked(0);
    assert_eq!(table.clicked_task().unwrap().title, "a");
}

#[test]
fn task_row_styles() {
    let mut t = task(1, "p", "a");
    assert!(!is_done(&t));
    t.status = TaskStatus::Complete;
    assert!(is_done(&t));
    assert_eq!(priority_style(TaskPriority::High), (Message::High, (255, 60, 60)));
    assert_eq!(priority_style(TaskPriority::Medium), (Message::Medium, (255, 215, 0)));
    assert_eq!(priority_style(TaskPriority::Low), (Message::Low, (60, 255, 60)));
    assert_eq!(status_icon(TaskStatus::Pending), "⏳");
    assert_eq!(status_icon(TaskStatus::Complete), "✅");
    assert_eq!(status_icon(TaskStatus::Canceled), "🚫");
}

#[test]
fn weekly_table_hands_out_click_once() {
    let mut table = WeeklyTaskTable::new();
    assert!(!table.clicked());
    table.on_edit_clicked(&weekly());
    assert!(table.clicked());
    assert!(!table.clicked());
    assert_eq!(table.clicked_task().unwrap().title, "gym");
    assert!(table.clicked_task().is_none());
}

#[test]
fn weekday_names_and_duration() {
    assert_eq!(weekday_to_string(Weekday::Sunday), Message::Sunday);
    assert_eq!(duration(&weekly()), (Message::Monday, Message::Friday));
    assert_eq!(weekday_options().len(), 7);
    assert_eq!(weekday_options()[0], Weekday::Monday);
}

#[test]
fn daily_task_needs_only_a_title() {
    let mut d = DailyTask {
        id: 1,
        active: true,
        project: String::new(),
        title: "walk".to_string(),
        detail: String::new(),
        priority: TaskPriority::Low,
    };
    assert!(d.is_saveable());
    d.title = String::new();
    d.project = "p".to_string();
    assert!(!d.is_saveable());
    let mut w = weekly();
    w.project = String::new();
    assert!(w.is_saveable());
    w.title = String::new();
    assert!(!w.is_saveable());
}

#[test]
fn edit_forms_write_through() {
    let mut d = DailyTask {
        id: 1,
        active: false,
        project: "p".to_string(),
        title: "t".to_string(),
        detail: String::new(),
        priority: TaskPriority::Low,
    };
    {
        let mut edit = DailyTaskEdit::new(&mut d);
        edit.set_active(true);
        edit.set_priority(TaskPriority::High);
    }
    assert!(d.active);
    assert_eq!(d.priority, TaskPriority::High);

    let mut w = weekly();
    {
        let mut edit = WeeklyTaskEdit::new(&mut w);
        edit.set_duration(Weekday::Tuesday, Weekday::Sunday);
        edit.set_active(false);
    }
    assert_eq!(w.start_day, Weekday::Tuesday);
    assert_eq!(w.due_day, Weekday::Sunday);
    assert!(!w.active);

    let mut m = MonthlyTask {
        id: 2,
        active: true,
        project: "p".to_string(),
        title: "rent".to_string(),
        detail: String::new(),
        priority: TaskPriority::Medium,
        start_day: 1,
        due_day: 5,
    };
    {
        let mut edit = MonthlyTaskEdit::new(&mut m);
        edit.set_duration(25, 31);
        edit.set_priority(TaskPriority::High);
    }
    assert_eq!((m.start_day, m.due_day), (25, 31));
    assert_eq!(m.priority, TaskPriority::High);
    let days = day_options();
    assert_eq!(days.len(), 31);
    assert_eq!(days[0], 1);
    assert_eq!(days[30], 31);
    m.project = String::new();
    assert!(m.is_saveable());
    m.title = String::new();
    assert!(!m.is_saveable());
}

#[test]
fn priority_picker_positions() {
    assert_eq!(priority_index(TaskPriority::Low), 0);
    assert_eq!(priority_index(TaskPriority::Medium), 1);
    assert_eq!(priority_index(TaskPriority::High), 2);
    assert_eq!(priority_at(2), Some(TaskPriority::High));
    assert_eq!(priority_at(3), None);
}

#[test]
fn saveable_needs_project_and_title() {
    assert!(task(1, "p", "t").is_saveable());
    assert!(!task(1, "", "t").is_saveable());
    assert!(!task(1, "p", "").is_saveable());
    let copy = task(4, "p", "t").duplicate();
    assert_eq!(copy.id, 4);
    assert_eq!(copy.title, "t");
}

#[test]
fn yes_no_modal_answers_and_closes() {
    let mut modal = YesNoModal::new();
    assert_eq!(modal.show(false, true), ModalResult::NoAnswer);
    modal.open("Save".to_string(), "Save the task?".to_string());
    assert!(modal.is_open());
    assert_eq!(modal.title(), "Save");
    assert_eq!(modal.message(), "Save the task?");
    assert_eq!(modal.show(false, false), ModalResult::NoAnswer);
    assert!(modal.is_open());
    assert_eq!(modal.show(true, false), ModalResult::No);
    assert!(!modal.is_open());
    modal.open("Save".to_string(), "again".to_string());
    assert_eq!(modal.show(false, true), ModalResult::Yes);
    assert!(!modal.is_open());
}

#[test]
fn yes_no_cancel_popup_answers() {
    let mut popup = YesNoCancelPopup::new();
    assert_eq!(popup.show(true, true, true, false), PopupResult::NoAnswer);
    popup.open("t".to_string(), "m".to_string());
    assert_eq!(popup.show(true, false, false, false), PopupResult::Cancel);
    assert!(!popup.is_open());
    popup.open("t".to_string(), "m".to_string());
    assert_eq!(popup.show(false, false, false, true), PopupResult::NoAnswer);
    assert!(!popup.is_open());
    popup.open("t".to_string(), "m".to_string());
    assert_eq!(popup.show(false, true, false, false), PopupResult::No);
    popup.open("t".to_string(), "m".to_string());
    assert_eq!(popup.show(false, false, true, false), PopupResult::Yes);
}

#[test]
fn warning_and_about_boxes() {
    let mut warning = WarningModal::new();
    assert!(!warning.is_open());
    warning.open("Save failed".to_string(), "Title is empty".to_string());
    assert!(warning.is_open());
    assert_eq!(warning.title(), "Save failed");
    assert_eq!(warning.message(), "Title is empty");

    let mut about = AboutModal::new();
    assert!(!about.show(true));
    about.open();
    assert!(about.show(false));
    assert!(about.show(true));
    assert!(!about.show(false));
}

#[test]
fn search_modal_hands_out_condition() {
    let mut modal = SearchConditionModal::new();
    assert!(matches!(modal.show(true, false), SearchResult::NoAnswer));
    modal.open();
    modal.set_pattern("report".to_string());
    modal.toggle_filter(TaskFilterFlags::from_bits_truncate(FILTER_ACTIVE));
    modal.toggle_search(TaskSearchFlags::from_bits_truncate(SEARCH_TITLE));
    modal.toggle_order(TaskOrderFlags::from_bits_truncate(ORDER_REVERSED));
    match modal.show(true, false) {
        SearchResult::Search(pattern, filter, order, search) => {
            assert_eq!(pattern, "report");
            assert_eq!(filter.bits(), FILTER_ACTIVE);
            assert_eq!(order.bits(), ORDER_REVERSED);
            assert_eq!(search.bits(), SEARCH_TITLE);
        }
        other => panic!("unexpected {:?}", other),
    }
    assert!(!modal.is_open());
    modal.open();
    assert_eq!(modal.pattern(), "");
    assert_eq!(modal.filter_flags().bits(), FILTER_ACTIVE);
    assert!(matches!(modal.show(true, true), SearchResult::Cancel));
}

#[test]
fn flags_toggle_and_contain() {
    let mut f = TaskFilterFlags::all();
    let inactive = TaskFilterFlags::from_bits_truncate(FILTER_INACTIVE);
    assert!(f.contains(inactive));
    f.toggle(inactive);
    assert!(!f.contains(inactive));
    assert_eq!(f.bits(), FILTER_ALL & !FILTER_INACTIVE);
    f.toggle(inactive);
    assert_eq!(f.bits(), FILTER_ALL);
    assert_eq!(TaskFilterFlags::all().difference(inactive).bits(), 0x1fd);
    assert_eq!(TaskFilterFlags::all().symmetric_difference(inactive).bits(), 0x1fd);
    assert_eq!(TaskFilterFlags::empty().union(inactive).bits(), FILTER_INACTIVE);
    assert_eq!(TaskFilterFlags::from_bits_truncate(0xffff_ffff).bits(), FILTER_ALL);
    let mut s = TaskSearchFlags::default();
    s.toggle(TaskSearchFlags::from_bits_truncate(SEARCH_ENABLE_REGEX));
    assert!(s.contains(TaskSearchFlags::from_bits_truncate(SEARCH_ENABLE_REGEX)));
    assert!(!s.contains(TaskSearchFlags::from_bits_truncate(SEARCH_TITLE)));
    assert_eq!(TaskOrderFlags::default().bits(), 0);
}

#[test]
fn message_ids() {
    assert_eq!(message_id(Message::WorkInProgress), "work-in-progress");
    assert_eq!(message_id(Message::Cancel), "cancel");
    assert_eq!(message_id(Message::ProjectEmpty), "project-empty");
    assert_eq!(message_id(Message::LightBlue), "light-blue");
}
