//! Canonical domain records handed to the rest of the application.
use vstd::prelude::*;

verus! {

/// A project as the rest of the application sees it.
#[derive(Debug, Clone)]
pub struct Project {
    pub id: String,
    pub name: String,
    pub color: String,
    pub is_shared: bool,
    pub is_favorite: bool,
}

/// A task as the rest of the application sees it.
#[derive(Debug, Clone)]
pub struct Task {
    pub id: String,
    pub content: String,
    pub description: Option<String>,
    pub project_id: Option<String>,
    pub due: Option<Due>,
    pub is_completed: bool,
    pub created_at: String,
    pub order: i32,
    pub priority: u8,
    pub labels: Vec<String>,
}

/// The due date of a task.
#[derive(Debug, Clone)]
pub struct Due {
    pub date: Option<String>,
    pub is_recurring: Option<bool>,
    pub datetime: Option<String>,
}

/// A task joined with the name of its project, ready for rendering.
#[derive(Debug)]
pub struct TaskOutput {
    pub id: String,
    pub content: String,
    pub description: Option<String>,
    pub project_id: Option<String>,
    pub project_name: Option<String>,
    pub due_date: Option<String>,
    pub is_completed: bool,
    pub created_at: String,
    pub order: i32,
    pub priority: u8,
    pub labels: Vec<String>,
}

/// A saved filter.
#[derive(Debug, Clone)]
pub struct Filter {
    pub id: String,
    pub name: String,
    pub query: String,
}

/// The filters section of a read response.
#[derive(Debug)]
pub struct SyncResponse {
    pub filters: Vec<Filter>,
}

/// A page of projects.
#[derive(Debug)]
pub struct ProjectsResponse {
    pub results: Vec<Project>,
}

/// A page of tasks.
#[derive(Debug)]
pub struct TasksResponse {
    pub results: Vec<Task>,
}

} // verus!
