use task_fighter::app::{check_rx, needs_sync, PageFlow, Received};
use task_fighter::config::{color_schemes, locale_options, ColorScheme, Locale};
use task_fighter::message::Message;
use task_fighter::sync::{sync_action, takes_part, Recurrence, SyncAction};
use task_fighter::page::form::{name_warning, needs_new_id, on_close_answer, on_save_answer, FormAction, FormPage};
use task_fighter::page::main_page::{
    apply_bottom_action, apply_search_bar_action, resolve_bottom_action, BottomAction,
    ListRequest, MainRequest, SearchBarAction,
};
use task_fighter::page::monthly_main_page::MonthlyMainPage;
use task_fighter::page::transition::{all_effects, Animation, EffectType, SlideFrom};
use task_fighter::page::{should_fetch, Pages};
use task_fighter::search_condition_modal::ModalResult as SearchResult;
use task_fighter::flags::{TaskFilterFlags, TaskOrderFlags, TaskSearchFlags};
use task_fighter::task::{Task, TaskPriority, TaskStatus};
use task_fighter::widget::graph::{calculate_max_y, days_before_today, grid_marks, stacked_order};
use task_fighter::widget::stop_watch::{elapsed_seconds, split_clock};
use task_fighter::widget::yes_no_modal::ModalResult;
use task_fighter::yes_no_cancel_popup::PopupResult;

#[test]
fn page_flow_runs_entry_then_exit() {
    let mut flow = PageFlow::new();
    assert_eq!(flow.next_page, Pages::Main);
    assert_eq!(flow.last_page, Pages::Init);
    assert_eq!(flow.enter(), Some(Pages::Main));
    assert_eq!(flow.leaving(), None);
    assert_eq!(flow.enter(), None);
    flow.next_page = Pages::Kanban;
    assert_eq!(flow.leaving(), Some(Pages::Main));
    assert_eq!(flow.enter(), Some(Pages::Kanban));
    assert_eq!(flow.last_page, Pages::Kanban);
    assert_eq!(Pages::default(), Pages::Init);
}

#[test]
fn requests_are_kept_while_running() {
    assert_eq!(check_rx(Received::Ready(5)), (false, Some(5)));
    assert_eq!(check_rx::<i32>(Received::Failed), (false, None));
    assert_eq!(check_rx::<i32>(Received::Empty), (true, None));
    assert_eq!(check_rx::<i32>(Received::Closed), (false, None));
}

#[test]
fn sync_after_ten_minutes() {
    assert!(!needs_sync(599, 999_999_999));
    assert!(!needs_sync(600, 0));
    assert!(needs_sync(600, 1));
    assert!(needs_sync(601, 0));
    assert!(should_fetch(true, false));
    assert!(!should_fetch(false, false));
    assert!(!should_fetch(true, true));
}

fn task(project: &str, title: &str) -> Task {
    Task {
        id: 0,
        project: project.to_string(),
        title: title.to_string(),
        detail: String::new(),
        priority: TaskPriority::High,
        status: TaskStatus::Pending,
    }
}

#[test]
fn form_answers() {
    let w = (Message::SaveError, Message::TitleEmpty);
    assert_eq!(on_close_answer(PopupResult::Yes, true, w, Pages::Main), FormAction::SaveAndLeave(Pages::Main));
    assert_eq!(
        on_close_answer(PopupResult::Yes, false, w, Pages::Main),
        FormAction::Warn(Message::SaveError, Message::TitleEmpty)
    );
    assert_eq!(on_close_answer(PopupResult::No, false, w, Pages::WeeklyMain), FormAction::DiscardAndLeave(Pages::WeeklyMain));
    assert_eq!(on_close_answer(PopupResult::Cancel, true, w, Pages::Main), FormAction::Stay);
    assert_eq!(on_close_answer(PopupResult::NoAnswer, true, w, Pages::Main), FormAction::Stay);
    assert_eq!(on_save_answer(ModalResult::Yes, true, w, None), FormAction::Save);
    assert_eq!(on_save_answer(ModalResult::Yes, true, w, Some(Pages::DailyMain)), FormAction::SaveAndGo(Pages::DailyMain));
    assert_eq!(on_save_answer(ModalResult::Yes, false, w, None), FormAction::Warn(Message::SaveError, Message::TitleEmpty));
    assert_eq!(on_save_answer(ModalResult::No, true, w, None), FormAction::Stay);
    assert_eq!(name_warning(&task("", "t")), Message::ProjectEmpty);
    assert_eq!(name_warning(&task("p", "")), Message::TitleEmpty);
    assert!(needs_new_id(&task("p", "t")));
}

#[test]
fn form_returns_where_it_came_from_but_not_settings() {
    let mut form = FormPage::new(Pages::WeeklyMain);
    assert_eq!(form.last_page, Pages::WeeklyMain);
    form.on_entry(Pages::Kanban);
    assert_eq!(form.last_page, Pages::Kanban);
    form.on_entry(Pages::Config);
    assert_eq!(form.last_page, Pages::Kanban);
}

#[test]
fn main_page_actions() {
    assert_eq!(resolve_bottom_action(BottomAction::NoAction, BottomAction::CreateTask), BottomAction::CreateTask);
    assert_eq!(resolve_bottom_action(BottomAction::Graph, BottomAction::NoAction), BottomAction::Graph);
    assert_eq!(apply_bottom_action(BottomAction::Graph, false), (Some(Pages::Graph), MainRequest::PlotData));
    assert_eq!(apply_bottom_action(BottomAction::EmailReport, false), (None, MainRequest::Nothing));
    assert_eq!(apply_bottom_action(BottomAction::EmailReport, true), (None, MainRequest::MailDaily));
    assert_eq!(apply_bottom_action(BottomAction::Kanban, true), (Some(Pages::Kanban), MainRequest::Nothing));
    assert_eq!(apply_bottom_action(BottomAction::ExportMarkdown, false), (None, MainRequest::ExportMarkdown));
    assert!(matches!(apply_search_bar_action(SearchBarAction::Reset), ListRequest::FetchAll));
    assert!(matches!(apply_search_bar_action(SearchBarAction::Modal(SearchResult::Cancel)), ListRequest::Nothing));
    let search = SearchResult::Search(
        "x".to_string(),
        TaskFilterFlags::all(),
        TaskOrderFlags::empty(),
        TaskSearchFlags::empty(),
    );
    match apply_search_bar_action(SearchBarAction::Modal(search)) {
        ListRequest::Search(p, _, f, _) => {
            assert_eq!(p, "x");
            assert_eq!(f, TaskFilterFlags::all());
        }
        _ => panic!("expected a search"),
    }
}

#[test]
fn monthly_scheme_button_cycles() {
    let mut page = MonthlyMainPage::new();
    let mut seen = Vec::new();
    for _ in 0..7 {
        seen.push(page.change_color_scheme());
    }
    assert_eq!(seen, color_schemes());
    assert_eq!(page.change_color_scheme(), ColorScheme::LightBlue);
    assert!(page.show_only_active());
    assert!(page.set_show_only_active(false));
    assert!(!page.set_show_only_active(false));
    assert_eq!(locale_options()[1], Locale::Japanese);
    assert_eq!(ColorScheme::Sakura.label(), Message::Sakura);
    assert_eq!(Locale::Spanish.label(), Message::Spanish);
}

#[test]
fn graph_numbers() {
    assert_eq!(calculate_max_y(&[]), 10);
    assert_eq!(calculate_max_y(&[(1, 2, 3, 4), (0, 0, 0, 0), (5, 5, 5, 1)]), 16);
    assert_eq!(days_before_today(5, 0), Some(4));
    assert_eq!(days_before_today(5, 4), Some(0));
    assert_eq!(days_before_today(5, 5), None);
    assert_eq!(days_before_today(5, -1), None);
    assert_eq!(grid_marks(-1, 12, 5), vec![0, 5, 10]);
    assert_eq!(grid_marks(-12, -1, 5), vec![-10, -5]);
    assert_eq!(grid_marks(3, 2, 1), Vec::<i64>::new());
    assert_eq!(grid_marks(i64::MAX - 1, i64::MAX, 1), vec![i64::MAX - 1, i64::MAX]);
    assert_eq!(stacked_order(&[(1, 0, 0, 0), (2, 0, 0, 0)]), vec![(2, 0, 0, 0), (1, 0, 0, 0)]);
}

#[test]
fn stop_watch_clock() {
    assert_eq!(split_clock(0), (0, 0, 0));
    assert_eq!(split_clock(3725), (1, 2, 5));
    assert_eq!(split_clock(360_000), (100, 0, 0));
    assert_eq!(elapsed_seconds(-90), 90);
    assert_eq!(elapsed_seconds(90), 90);
}

#[test]
fn transition_effects() {
    let all = all_effects();
    assert_eq!(all.len(), 10);
    for _ in 0..20 {
        assert!(all.contains(&EffectType::random()));
    }
    assert_eq!(EffectType::LeftToRight.animation(), Animation::Slide(SlideFrom::Right));
    assert_eq!(EffectType::BottomToTop.animation(), Animation::Slide(SlideFrom::Top));
    assert_eq!(EffectType::ZoomIn.animation(), Animation::ZoomIn);
    assert!(SlideFrom::Left.is_horizontal());
    assert!(!SlideFrom::Top.is_horizontal());
    assert!(SlideFrom::Top.from_negative_side());
    assert!(!SlideFrom::Right.from_negative_side());
}

#[test]
fn sync_inserts_only_missing_tasks_of_taking_part() {
    assert!(takes_part(Recurrence::Daily, false));
    assert!(!takes_part(Recurrence::Monthly, false));
    assert_eq!(sync_action(Recurrence::Daily, false, false), SyncAction::Insert);
    assert_eq!(sync_action(Recurrence::Daily, true, true), SyncAction::Skip);
    assert_eq!(sync_action(Recurrence::Monthly, false, false), SyncAction::Skip);
    assert_eq!(sync_action(Recurrence::Monthly, true, false), SyncAction::Insert);
    assert_eq!(sync_action(Recurrence::Monthly, true, true), SyncAction::Skip);
}
