//! Widget layout, pagination and timed-progress logic with machine-checked contracts.
pub mod frame;
pub mod geometry;
pub mod image;
pub mod label;
pub mod layout;
pub mod layout_facts;
pub mod layout_rules;
pub mod layout_tree;
pub mod link_counts;
pub mod menu_panel;
pub mod pagination;
pub mod panel;
pub mod progress;
pub mod progress_runs;
pub mod scaling;
pub mod show_facts;
