use task_fighter::config::{ColorScheme, Config, Locale};
use task_fighter::page::config_page::ConfigPage;
use task_fighter::page::page::Pages as FirstLayoutPages;
use task_fighter::page::Pages;
use task_fighter::task::{Task, TaskPriority, TaskStatus};
use task_fighter::app::Received;
use task_fighter::work::{is_polled, keeps, settle_polls, Cache, Delivery, OutputKind};

fn config() -> Config {
    Config { color_scheme: ColorScheme::DarkOrange, locale: Locale::System, email_locale: Locale::English }
}

#[test]
fn cache_stores_each_delivery_in_its_place() {
    let mut cache = Cache::new();
    assert!(cache.tasks.is_none() && cache.plot_data.is_none());
    cache.deliver(Delivery::PlotData(vec![(1, 2, 3, 4)]));
    assert_eq!(cache.plot_data, Some(vec![(1, 2, 3, 4)]));
    assert!(cache.tasks.is_none());
    cache.deliver(Delivery::Tasks(vec![Task {
        id: 1,
        project: "p".to_string(),
        title: "t".to_string(),
        detail: String::new(),
        priority: TaskPriority::Low,
        status: TaskStatus::Pending,
    }]));
    assert_eq!(cache.tasks.as_ref().unwrap().len(), 1);
    cache.deliver(Delivery::Done);
    assert_eq!(cache.tasks.as_ref().unwrap().len(), 1);
    assert!(cache.daily_tasks.is_none());
    cache.deliver(Delivery::WeeklyTasks(Vec::new()));
    assert!(cache.weekly_tasks.is_some());
    assert!(cache.monthly_tasks.is_none());
}

#[test]
fn one_poll_keeps_running_requests_and_stores_results_in_order() {
    let mut cache = Cache::new();
    let kinds = vec![
        OutputKind::PlotData,
        OutputKind::FetchAllTask,
        OutputKind::Other,
        OutputKind::UpsertTask,
        OutputKind::PlotData,
        OutputKind::MailDaily,
    ];
    let received = vec![
        Received::Ready(Delivery::PlotData(vec![(1, 1, 1, 1)])),
        Received::Empty,
        Received::Empty,
        Received::Failed,
        Received::Ready(Delivery::PlotData(vec![(2, 2, 2, 2)])),
        Received::Closed,
    ];
    let keep = settle_polls(&kinds, received, &mut cache);
    assert_eq!(keep, vec![false, true, false, false, false, false]);
    // the later delivery wins
    assert_eq!(cache.plot_data, Some(vec![(2, 2, 2, 2)]));
    assert!(cache.tasks.is_none());
}

#[test]
fn only_known_requests_are_polled() {
    assert!(is_polled(OutputKind::FetchAllTask));
    assert!(is_polled(OutputKind::SyncAllMonthlyTask));
    assert!(!is_polled(OutputKind::Other));
}

#[test]
fn config_page_applies_choices() {
    let mut page = ConfigPage::new(config());
    assert_eq!(page.back_page, Pages::Main);
    page.on_entry(Pages::Kanban, config());
    assert_eq!(page.back_page, Pages::Kanban);
    let mut in_use = config();
    assert!(!page.choose_color_scheme(ColorScheme::DarkOrange, &mut in_use));
    assert!(page.choose_color_scheme(ColorScheme::Sakura, &mut in_use));
    assert_eq!(in_use.color_scheme, ColorScheme::Sakura);
    assert!(page.choose_locale(Locale::Japanese, &mut in_use));
    assert_eq!(in_use.locale, Locale::Japanese);
    assert!(page.choose_email_locale(Locale::German, &mut in_use));
    assert_eq!(page.on_exit(), in_use);
}

#[test]
fn screen_defaults() {
    assert_eq!(FirstLayoutPages::default(), FirstLayoutPages::Main);
    assert_eq!(Pages::default(), Pages::Init);
}

#[test]
fn each_kind_keeps_only_its_own_list() {
    assert!(keeps(OutputKind::SearchTask, &Delivery::Tasks(Vec::new())));
    assert!(!keeps(OutputKind::FetchOneTask, &Delivery::Tasks(Vec::new())));
    assert!(!keeps(OutputKind::FetchAllTask, &Delivery::PlotData(Vec::new())));
    let mut cache = Cache::new();
    let keep = settle_polls(
        &vec![OutputKind::FetchOneTask, OutputKind::FetchAllMonthlyTask],
        vec![Received::Ready(Delivery::Tasks(Vec::new())), Received::Ready(Delivery::MonthlyTasks(Vec::new()))],
        &mut cache,
    );
    assert_eq!(keep, vec![false, false]);
    assert!(cache.tasks.is_none());
    assert!(cache.monthly_tasks.is_some());
}
