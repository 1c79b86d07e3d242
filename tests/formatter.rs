use todorust::{Filter, Formattable, OutputFormat, Project, SyncFilter, SyncLabel, SyncSection, TaskOutput};

fn mock_tasks() -> Vec<TaskOutput> {
    vec![
        TaskOutput {
            id: "1".to_string(),
            content: "Task 1".to_string(),
            description: Some("Task 1 details".to_string()),
            project_name: Some("Work".to_string()),
            is_completed: true,
            priority: 4,
            labels: vec![],
            project_id: Some("p1".to_string()),
            due_date: None,
            created_at: "2026-01-10T10:00:00Z".to_string(),
            order: 1,
        },
        TaskOutput {
            id: "2".to_string(),
            content: "Task 2".to_string(),
            description: None,
            project_name: Some("Personal".to_string()),
            is_completed: false,
            priority: 2,
            labels: vec![],
            project_id: Some("p2".to_string()),
            due_date: None,
            created_at: "2026-01-11T10:00:00Z".to_string(),
            order: 2,
        },
    ]
}

#[test]
fn test_format_checklist() {
    let tasks = mock_tasks();
    let output = tasks.format(&OutputFormat::Checklist);
    assert!(output.contains("- [x] Task 1 (Work)"));
    assert!(output.contains("- [ ] Task 2 (Personal)"));
}

#[test]
fn test_format_structured() {
    let tasks = mock_tasks();
    let output = tasks.format(&OutputFormat::Structured);
    assert!(output.contains("## Personal"));
    assert!(output.contains("## Work"));
    assert!(output.contains("- [x] Task 1"));
    assert!(output.contains("(Priority: 4)"));
    assert!(output.contains("- [ ] Task 2"));
    assert!(output.contains("(Priority: 2)"));
}

#[test]
fn test_format_empty_tasks() {
    let tasks: Vec<TaskOutput> = vec![];
    let output = tasks.format(&OutputFormat::Checklist);
    assert_eq!(output, "");
}

#[test]
fn test_format_checklist_no_project() {
    let tasks = vec![TaskOutput {
        id: "1".to_string(),
        content: "No Project Task".to_string(),
        description: None,
        project_name: None,
        is_completed: true,
        priority: 1,
        labels: vec![],
        project_id: None,
        due_date: None,
        created_at: "2026-01-10T10:00:00Z".to_string(),
        order: 1,
    }];
    let output = tasks.format(&OutputFormat::Checklist);
    assert!(output.contains("- [x] No Project Task"));
    assert!(!output.contains("("));
}

#[test]
fn test_format_structured_inbox() {
    let tasks = vec![TaskOutput {
        id: "1".to_string(),
        content: "Inbox Task".to_string(),
        description: None,
        project_name: None,
        is_completed: false,
        priority: 1,
        labels: vec![],
        project_id: None,
        due_date: None,
        created_at: "2026-01-10T10:00:00Z".to_string(),
        order: 1,
    }];
    let output = tasks.format(&OutputFormat::Structured);
    assert!(output.contains("## Inbox"));
    assert!(output.contains("- [ ] Inbox Task"));
    // Priority 1 should not show
    assert!(!output.contains("(Priority:"));
}

#[test]
fn test_format_projects_checklist() {
    let projects = vec![
        Project {
            id: "1".to_string(),
            name: "Work".to_string(),
            color: "blue".to_string(),
            is_shared: false,
            is_favorite: true,
        },
        Project {
            id: "2".to_string(),
            name: "Personal".to_string(),
            color: "green".to_string(),
            is_shared: true,
            is_favorite: false,
        },
    ];

    let output = projects.format(&OutputFormat::Checklist);
    assert!(output.contains("- [ ] ⭐ Work"));
    assert!(output.contains("- [ ] Personal (shared)"));
}

#[test]
fn test_format_projects_structured() {
    let projects = vec![Project {
        id: "1".to_string(),
        name: "Work".to_string(),
        color: "blue".to_string(),
        is_shared: false,
        is_favorite: true,
    }];

    let output = projects.format(&OutputFormat::Structured);
    assert!(output.contains("### Work"));
    assert!(output.contains("**Color:** blue"));
    assert!(output.contains("⭐ Favorite"));
}

#[test]
fn test_format_filters_checklist() {
    let filters = vec![
        Filter {
            id: "1".to_string(),
            name: "This Week".to_string(),
            query: "due within \"7 days of today\"".to_string(),
        },
        Filter {
            id: "2".to_string(),
            name: "Work High Priority".to_string(),
            query: "project:Work & priority:4".to_string(),
        },
    ];

    let output = filters.format(&OutputFormat::Checklist);
    assert!(output.contains("- [ ] This Week"));
    assert!(output.contains("(due within \"7 days of today\")"));
}

#[test]
fn test_format_filters_structured() {
    let filters = vec![Filter {
        id: "1".to_string(),
        name: "Urgent Tasks".to_string(),
        query: "priority:4".to_string(),
    }];

    let output = filters.format(&OutputFormat::Structured);
    assert!(output.contains("### Urgent Tasks"));
    assert!(output.contains("**Filter:** `priority:4`"));
    assert!(output.contains("**ID:** 1"));
}

fn mock_sections() -> Vec<SyncSection> {
    vec![
        SyncSection {
            id: "s1".to_string(),
            project_id: "p1".to_string(),
            name: "Section 1".to_string(),
            order: 1,
            is_archived: false,
            is_deleted: false,
            created_at: "2026-01-10T10:00:00Z".to_string(),
            archived_at: None,
            is_collapsed: None,
        },
        SyncSection {
            id: "s2".to_string(),
            project_id: "p1".to_string(),
            name: "Section 2".to_string(),
            order: 2,
            is_archived: false,
            is_deleted: false,
            created_at: "2026-01-11T10:00:00Z".to_string(),
            archived_at: None,
            is_collapsed: None,
        },
        SyncSection {
            id: "s3".to_string(),
            project_id: "p2".to_string(),
            name: "Section 3".to_string(),
            order: 1,
            is_archived: false,
            is_deleted: false,
            created_at: "2026-01-12T10:00:00Z".to_string(),
            archived_at: None,
            is_collapsed: None,
        },
    ]
}

#[test]
fn test_format_sections_checklist() {
    let sections = mock_sections();
    let output = sections.format(&OutputFormat::Checklist);
    assert!(output.contains("- [ ] Section 1 (Project: p1)"));
    assert!(output.contains("- [ ] Section 2 (Project: p1)"));
    assert!(output.contains("- [ ] Section 3 (Project: p2)"));
}

#[test]
fn test_format_sections_structured() {
    let sections = mock_sections();
    let output = sections.format(&OutputFormat::Structured);
    assert!(output.contains("## Project: p1"));
    assert!(output.contains("## Project: p2"));
    assert!(output.contains("Section 1"));
    assert!(output.contains("Section 3"));
}

#[test]
fn test_format_empty_sections() {
    let sections: Vec<SyncSection> = vec![];
    let output = sections.format(&OutputFormat::Checklist);
    assert_eq!(output, "");
}

#[test]
fn structured_tasks_exact_text_groups_sorted() {
    let mut tasks = mock_tasks();
    tasks.push(TaskOutput {
        id: "3".to_string(),
        content: "Task 3".to_string(),
        description: None,
        project_name: Some("Work".to_string()),
        is_completed: false,
        priority: 1,
        labels: vec![],
        project_id: Some("p1".to_string()),
        due_date: None,
        created_at: "2026-01-12T10:00:00Z".to_string(),
        order: 3,
    });
    let output = tasks.format(&OutputFormat::Structured);
    assert_eq!(
        output,
        "## Personal\n\n- [ ] Task 2 (Priority: 2)\n\n## Work\n\n- [x] Task 1 (Priority: 4)\n- [ ] Task 3"
    );
}

#[test]
fn structured_sections_exact_text() {
    let output = mock_sections().format(&OutputFormat::Structured);
    assert_eq!(
        output,
        "## Project: p1\n\n- [ ] Section 1 (ID: s1)\n- [ ] Section 2 (ID: s2)\n\n## Project: p2\n\n- [ ] Section 3 (ID: s3)"
    );
}

#[test]
fn checklist_tasks_exact_text() {
    let output = mock_tasks().format(&OutputFormat::Checklist);
    assert_eq!(output, "- [x] Task 1 (Work)\n- [ ] Task 2 (Personal)");
}

#[test]
fn priority_with_two_digits_is_written_in_decimal() {
    let mut tasks = mock_tasks();
    tasks.truncate(1);
    tasks[0].priority = 12;
    let output = tasks.format(&OutputFormat::Structured);
    assert_eq!(output, "## Work\n\n- [x] Task 1 (Priority: 12)");
}

#[test]
fn projects_structured_meta_line() {
    let projects = vec![
        Project {
            id: "1".to_string(),
            name: "Work".to_string(),
            color: "blue".to_string(),
            is_shared: true,
            is_favorite: true,
        },
        Project {
            id: "2".to_string(),
            name: "Home".to_string(),
            color: "red".to_string(),
            is_shared: false,
            is_favorite: false,
        },
    ];
    let output = projects.format(&OutputFormat::Structured);
    assert_eq!(
        output,
        "### Work\n\n**Color:** blue\n**ID:** 1\n**Meta:** ⭐ Favorite | 👥 Shared | \n\n### Home\n\n**Color:** red\n**ID:** 2\n"
    );
}

#[test]
fn labels_and_sync_filters_render() {
    let labels = vec![SyncLabel {
        id: "l1".to_string(),
        name: "urgent".to_string(),
        color: "red".to_string(),
        is_favorite: true,
    }];
    assert_eq!(labels.format(&OutputFormat::Checklist), "- [ ] ⭐ urgent (Color: red)");
    assert_eq!(
        labels.format(&OutputFormat::Structured),
        "### urgent\n\n**Color:** red\n**ID:** l1\n**Favorite:** Yes\n"
    );
    let filters = vec![SyncFilter {
        id: "f1".to_string(),
        name: "Today".to_string(),
        query: "today".to_string(),
    }];
    assert_eq!(filters.format(&OutputFormat::Checklist), "- [ ] Today (today)");
    assert_eq!(
        filters.format(&OutputFormat::Structured),
        "### Today\n\n**Filter:** `today`\n**ID:** f1\n"
    );
}
