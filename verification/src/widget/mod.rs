pub mod kanban_area;
pub mod task_table;
pub mod weekly_task_table;
pub mod daily_task_edit;
pub mod monthly_task_edit;
pub mod weekly_task_edit;
pub mod about_modal;
pub mod search_condition_modal;
pub mod yes_no_modal;
pub mod graph;
pub mod stop_watch;
