use vstd::prelude::*;

pub mod app;
pub mod config;
pub mod flags;
pub mod message;
pub mod page;
pub mod panic_handler;
pub mod search_condition_modal;
pub mod sync;
pub mod task;
pub mod warning_modal;
pub mod widget;
pub mod work;
pub mod yes_no_cancel_popup;

verus! {
}
