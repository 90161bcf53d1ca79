//! The search modal, also reachable from the crate root.

pub use crate::widget::search_condition_modal::{ModalResult, SearchConditionModal};
