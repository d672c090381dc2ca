//! The stack: the resources that are deployed together, and the builder that collects them.
mod builder;
mod dto;
mod existing;
mod template;

pub use builder::{
    alarm_issues, duplicates, metadata_entries, resource_entries, duplicates_are_the_repeated_ids, ids_of, unique_exactly_when_no_duplicates_reported, resource_ids_of, role_issues, StackBuilder,
    StackBuilderError, StackBuilderView,
};
pub use dto::{Asset, apply_replacements, delimits_ids, generated_id, generated_ids_start_with_the_kind, is_generated_id, keys_of, Output, OutputView, replacements_leave_text_without_ids, replacements_rewrite_each_delimited_id, Resource, Stack, StackView};
pub use existing::{assets_of, last_index_of, rename_all, renaming_keeps_deployed_logical_ids, rename_state_of, rename_step, resource_id_for, upsert, RenameState};
pub use template::string_members;
