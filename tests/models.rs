use todorust::{
    task_outputs, Due, Project, SyncDue, SyncProject, SyncTask, Task, WireProject, WireTask,
};

#[test]
fn test_sync_project_to_project_conversion() {
    let sync_project = SyncProject {
        id: "p1".to_string(),
        name: "My Project".to_string(),
        color: "green".to_string(),
        shared: true,
        favorite: false,
        sort_order: 10,
        is_archived: false,
        is_deleted: false,
        created_at: "2024-01-01T00:00:00Z".to_string(),
        updated_at: "2024-01-02T00:00:00Z".to_string(),
    };

    let project: Project = sync_project.into();
    assert_eq!(project.id, "p1");
    assert_eq!(project.name, "My Project");
    assert_eq!(project.color, "green");
    assert!(project.is_shared);
    assert!(!project.is_favorite);
}

#[test]
fn test_sync_task_to_task_conversion() {
    let sync_task = SyncTask {
        id: "t1".to_string(),
        project_id: Some("p1".to_string()),
        section_id: None,
        content: "My Task".to_string(),
        description: Some("Task description".to_string()),
        priority: 4,
        due: Some(SyncDue {
            date: Some("2024-01-15".to_string()),
            is_recurring: false,
            datetime: None,
            timezone: None,
        }),
        labels: vec!["label1".to_string(), "label2".to_string()],
        order: 5,
        indentation: 0,
        is_completed: false,
        is_archived: false,
        is_deleted: false,
        created_at: "2024-01-01T00:00:00Z".to_string(),
        updated_at: "2024-01-02T00:00:00Z".to_string(),
    };

    let task: Task = sync_task.into();
    assert_eq!(task.id, "t1");
    assert_eq!(task.content, "My Task");
    assert_eq!(task.priority, 4);
    assert!(!task.is_completed);
    assert_eq!(task.labels.len(), 2);
}

fn wire_project() -> WireProject {
    WireProject {
        id: "p1".to_string(),
        name: "Project 1".to_string(),
        color: None,
        shared: None,
        is_shared: None,
        favorite: None,
        is_favorite: Some(true),
        sort_order: None,
        child_order: Some(10),
        is_archived: None,
        is_deleted: None,
        created_at: None,
        added_at: Some("2024-01-01T00:00:00Z".to_string()),
        updated_at: None,
    }
}

#[test]
fn legacy_project_fields_are_adopted() {
    let project = SyncProject::from_wire(wire_project());
    assert_eq!(project.id, "p1");
    assert_eq!(project.sort_order, 10);
    assert!(project.favorite);
    assert!(!project.shared);
    assert_eq!(project.color, "");
    assert_eq!(project.created_at, "2024-01-01T00:00:00Z");
}

#[test]
fn current_field_name_wins_over_legacy_one() {
    let mut w = wire_project();
    w.sort_order = Some(3);
    w.created_at = Some("2025-05-05T00:00:00Z".to_string());
    w.favorite = Some(false);
    let project = SyncProject::from_wire(w);
    assert_eq!(project.sort_order, 3);
    assert_eq!(project.created_at, "2025-05-05T00:00:00Z");
    assert!(!project.favorite);
}

#[test]
fn legacy_task_fields_are_adopted() {
    let w = WireTask {
        id: "456".to_string(),
        project_id: None,
        section_id: None,
        content: "Test Task".to_string(),
        description: None,
        priority: Some(3),
        due: None,
        labels: None,
        order: None,
        child_order: Some(5),
        indentation: None,
        is_completed: None,
        checked: Some(true),
        is_archived: None,
        is_deleted: None,
        created_at: None,
        added_at: Some("2024-01-01T00:00:00Z".to_string()),
        updated_at: None,
    };
    let task = SyncTask::from_wire(w);
    assert_eq!(task.id, "456");
    assert_eq!(task.order, 5);
    assert!(task.is_completed);
    assert_eq!(task.created_at, "2024-01-01T00:00:00Z");
    assert!(task.labels.is_empty());
    assert!(task.due.is_none());
}

#[test]
fn task_output_takes_project_name_and_due_date() {
    let projects = vec![
        Project { id: "p1".to_string(), name: "Work".to_string(), color: String::new(), is_shared: false, is_favorite: false },
        Project { id: "p2".to_string(), name: "Home".to_string(), color: String::new(), is_shared: false, is_favorite: false },
    ];
    let task = Task {
        id: "t".to_string(),
        content: "c".to_string(),
        description: None,
        project_id: Some("p2".to_string()),
        due: Some(Due { date: Some("2024-01-15".to_string()), is_recurring: Some(false), datetime: None }),
        is_completed: false,
        created_at: String::new(),
        order: 1,
        priority: 1,
        labels: vec![],
    };
    let mut orphan = task.clone();
    orphan.project_id = Some("p9".to_string());
    orphan.due = None;
    let out = task_outputs(vec![task, orphan], &projects);
    assert_eq!(out[0].project_name.as_deref(), Some("Home"));
    assert_eq!(out[0].due_date.as_deref(), Some("2024-01-15"));
    assert!(out[1].project_name.is_none());
    assert!(out[1].due_date.is_none());
}
