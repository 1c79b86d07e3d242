//! Client library for a remote task-management service.
//!
//! The heart of the crate is the batch synchronization engine: command
//! envelopes with correlation and placeholder identifiers, the decisions of
//! read and write round trips, a staleness-bounded snapshot cache, and the
//! adapter from wire records to domain records. Around it stand the domain
//! records, their human-readable renderings, and the messages of the
//! command-line front end.
pub mod cache;
pub mod cli;
pub mod commands;
pub mod config;
pub mod engine;
pub mod error;
pub mod formatter;
pub mod laws;
pub mod models;
pub mod queries;
pub mod requests;
pub mod sync_models;
pub mod text;

pub use cache::{is_expired_at, Cache, CacheData, CacheManager, FRESHNESS_WINDOW_SECS};
pub use cli::{get_error_message, validate_priority};
pub use commands::{
    Command, CommandArgs, CommandBuilder, FilterAddArgs, FilterOrderArgs, ItemAddArgs,
    ItemUpdateArgs, LabelAddArgs, ProjectAddArgs, SectionAddArgs, SectionOrderArgs,
};
pub use config::Config;
pub use engine::{OpOutcome, OperationFailure, SyncEngine, Transfer};
pub use error::{Result, TodoError};
pub use formatter::{
    format_checklist, format_filters_checklist, format_filters_structured,
    format_projects_checklist, format_projects_structured, format_sections_checklist,
    format_sections_structured, format_structured, format_sync_filters_checklist,
    format_sync_filters_structured, format_sync_labels_checklist, format_sync_labels_structured,
    Formattable, OutputFormat,
};
pub use models::{Due, Filter, Project, ProjectsResponse, SyncResponse, Task, TaskOutput, TasksResponse};
pub use sync_models::{
    projects_from, task_output, task_outputs, tasks_from, IdMapping, StatusEntry, StatusValue,
    SyncDue, SyncFilter, SyncLabel, SyncProject, SyncReadResponse, SyncSection, SyncTask,
    SyncWriteResponse, WireDue, WireProject, WireReadResponse, WireTask,
};
pub use queries::{
    contains_str, filter_tasks, find_task, matches_filter, parse_u8, sections_in_project,
};
pub use requests::{add_task_args, checked_priority, require_some_field, section_order, split_list, task_content, update_task_args};
