//! Hook plumbing, tool registry bookkeeping and home-directory rules, with
//! the decisions stated as contracts over sequences of characters.

pub mod text;
pub mod home_dir;
pub mod project_memory;
pub mod hook_types;
pub mod hook_outcomes;
pub mod hooks_registry;
pub mod hook_summary;
pub mod hooks_table;
pub mod tool_registry;
pub mod tool_dispatch;
