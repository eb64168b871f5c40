//! The components of the dashboard.

pub mod component;
pub mod edit_job;
pub mod job_item;
pub mod job_list;
pub mod notes_popup;
pub mod search;
pub mod select_box;
pub mod util;
