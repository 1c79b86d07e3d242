use todorust::{
    CommandArgs, CommandBuilder, FilterAddArgs, FilterOrderArgs, ItemAddArgs, ItemUpdateArgs,
    LabelAddArgs, ProjectAddArgs, SectionAddArgs, SectionOrderArgs, Command,
};

#[test]
fn test_command_builder_new() {
    let builder = CommandBuilder::new();
    assert!(builder.build().is_empty());
}

#[test]
fn test_item_add_command() {
    let commands = CommandBuilder::new()
        .item_add(ItemAddArgs::new("Test task".to_string()))
        .build();
    assert_eq!(commands.len(), 1);

    let cmd = &commands[0];
    assert_eq!(cmd.type_, "item_add");
    assert!(!cmd.uuid.is_empty());
    assert!(cmd.temp_id.is_some());
}

#[test]
fn test_item_close_command() {
    let commands = CommandBuilder::new().item_close("123").build();
    assert_eq!(commands.len(), 1);

    let cmd = &commands[0];
    assert_eq!(cmd.type_, "item_close");
    assert!(cmd.temp_id.is_none());
}

#[test]
fn test_multiple_commands() {
    let commands = CommandBuilder::new()
        .item_add(ItemAddArgs::new("Task 1".to_string()))
        .item_add(ItemAddArgs::new("Task 2".to_string()))
        .item_close("456")
        .build();
    assert_eq!(commands.len(), 3);
}

#[test]
fn test_uuid_uniqueness() {
    let commands = CommandBuilder::new()
        .item_add(ItemAddArgs::new("Task 1".to_string()))
        .item_add(ItemAddArgs::new("Task 2".to_string()))
        .build();
    assert_ne!(commands[0].uuid, commands[1].uuid);
}

#[test]
fn test_temp_id_uniqueness() {
    let commands = CommandBuilder::new()
        .item_add(ItemAddArgs::new("Task 1".to_string()))
        .item_add(ItemAddArgs::new("Task 2".to_string()))
        .build();
    assert_ne!(commands[0].temp_id, commands[1].temp_id);
}

#[test]
fn test_item_complete_command() {
    let commands = CommandBuilder::new().item_complete("123").build();
    assert_eq!(commands.len(), 1);

    let cmd = &commands[0];
    assert_eq!(cmd.type_, "item_complete");
    assert!(cmd.temp_id.is_none());
}

#[test]
fn test_item_update_command() {
    let commands = CommandBuilder::new()
        .item_update(
            ItemUpdateArgs::new("123".to_string()).content(Some("Updated".to_string())),
        )
        .build();
    assert_eq!(commands.len(), 1);

    let cmd = &commands[0];
    assert_eq!(cmd.type_, "item_update");
    assert!(cmd.temp_id.is_none());
}

#[test]
fn test_label_add_command() {
    let commands = CommandBuilder::new()
        .label_add(LabelAddArgs::new("urgent".to_string()).color(Some("red".to_string())))
        .build();
    assert_eq!(commands.len(), 1);

    let cmd = &commands[0];
    assert_eq!(cmd.type_, "label_add");
    assert!(cmd.temp_id.is_some());
}

#[test]
fn test_label_delete_command() {
    let commands = CommandBuilder::new().label_delete("456").build();
    assert_eq!(commands.len(), 1);

    let cmd = &commands[0];
    assert_eq!(cmd.type_, "label_delete");
    assert!(cmd.temp_id.is_none());
}

#[test]
fn test_filter_update_orders_command() {
    let commands = CommandBuilder::new()
        .filter_update_orders(vec![
            FilterOrderArgs::new("123".to_string(), 1),
            FilterOrderArgs::new("456".to_string(), 2),
        ])
        .build();
    assert_eq!(commands.len(), 1);

    let cmd = &commands[0];
    assert_eq!(cmd.type_, "filter_update_orders");
    assert!(cmd.temp_id.is_none());
}

#[test]
fn test_section_archive_command() {
    let commands = CommandBuilder::new().section_archive("123").build();
    assert_eq!(commands.len(), 1);

    let cmd = &commands[0];
    assert_eq!(cmd.type_, "section_archive");
    assert!(cmd.temp_id.is_none());
}

#[test]
fn test_section_unarchive_command() {
    let commands = CommandBuilder::new().section_unarchive("123").build();
    assert_eq!(commands.len(), 1);

    let cmd = &commands[0];
    assert_eq!(cmd.type_, "section_unarchive");
    assert!(cmd.temp_id.is_none());
}

#[test]
fn test_section_move_command() {
    let commands = CommandBuilder::new().section_move("123", "456").build();
    assert_eq!(commands.len(), 1);

    let cmd = &commands[0];
    assert_eq!(cmd.type_, "section_move");
    assert!(cmd.temp_id.is_none());
}

#[test]
fn test_section_reorder_command() {
    let commands = CommandBuilder::new()
        .section_reorder(vec![
            SectionOrderArgs::new("123".to_string(), 1),
            SectionOrderArgs::new("456".to_string(), 2),
        ])
        .build();
    assert_eq!(commands.len(), 1);

    let cmd = &commands[0];
    assert_eq!(cmd.type_, "section_reorder");
    assert!(cmd.temp_id.is_none());
}

#[test]
fn test_project_add_command() {
    let commands = CommandBuilder::new()
        .project_add(ProjectAddArgs::new("New Project".to_string()))
        .build();
    assert_eq!(commands.len(), 1);

    let cmd = &commands[0];
    assert_eq!(cmd.type_, "project_add");
    assert!(cmd.temp_id.is_some());
}

#[test]
fn test_project_add_with_color_and_favorite() {
    let commands = CommandBuilder::new()
        .project_add(
            ProjectAddArgs::new("My Project".to_string())
                .color(Some("blue".to_string()))
                .favorite(Some(true)),
        )
        .build();
    assert_eq!(commands.len(), 1);

    let cmd = &commands[0];
    assert_eq!(cmd.type_, "project_add");
    assert!(cmd.temp_id.is_some());
}

#[test]
fn test_project_update_command() {
    let commands = CommandBuilder::new()
        .project_update("123", Some("Updated"), Some("red"), Some(false))
        .build();
    assert_eq!(commands.len(), 1);

    let cmd = &commands[0];
    assert_eq!(cmd.type_, "project_update");
    assert!(cmd.temp_id.is_none());
}

#[test]
fn test_project_delete_command() {
    let commands = CommandBuilder::new().project_delete("123").build();
    assert_eq!(commands.len(), 1);

    let cmd = &commands[0];
    assert_eq!(cmd.type_, "project_delete");
    assert!(cmd.temp_id.is_none());
}

#[test]
fn test_section_add_command() {
    let commands = CommandBuilder::new()
        .section_add(SectionAddArgs::new(
            "New Section".to_string(),
            "456".to_string(),
        ))
        .build();
    assert_eq!(commands.len(), 1);

    let cmd = &commands[0];
    assert_eq!(cmd.type_, "section_add");
    assert!(cmd.temp_id.is_some());
}

#[test]
fn test_section_update_command() {
    let commands = CommandBuilder::new()
        .section_update("123", "Updated Section")
        .build();
    assert_eq!(commands.len(), 1);

    let cmd = &commands[0];
    assert_eq!(cmd.type_, "section_update");
    assert!(cmd.temp_id.is_none());
}

#[test]
fn test_section_delete_command() {
    let commands = CommandBuilder::new().section_delete("123").build();
    assert_eq!(commands.len(), 1);

    let cmd = &commands[0];
    assert_eq!(cmd.type_, "section_delete");
    assert!(cmd.temp_id.is_none());
}

#[test]
fn test_item_reopen_command() {
    let commands = CommandBuilder::new().item_reopen("123").build();
    assert_eq!(commands.len(), 1);

    let cmd = &commands[0];
    assert_eq!(cmd.type_, "item_reopen");
    assert!(cmd.temp_id.is_none());
}

#[test]
fn test_item_move_command() {
    let commands = CommandBuilder::new().item_move("123", "456", None).build();
    assert_eq!(commands.len(), 1);

    let cmd = &commands[0];
    assert_eq!(cmd.type_, "item_move");
    assert!(cmd.temp_id.is_none());
}

#[test]
fn test_item_move_with_section() {
    let commands = CommandBuilder::new()
        .item_move("123", "456", Some("789"))
        .build();
    assert_eq!(commands.len(), 1);

    let cmd = &commands[0];
    assert_eq!(cmd.type_, "item_move");
    assert!(cmd.temp_id.is_none());
}

#[test]
fn test_item_delete_command() {
    let commands = CommandBuilder::new().item_delete("123").build();
    assert_eq!(commands.len(), 1);

    let cmd = &commands[0];
    assert_eq!(cmd.type_, "item_delete");
    assert!(cmd.temp_id.is_none());
}

#[test]
fn test_filter_add_command() {
    let commands = CommandBuilder::new()
        .filter_add(FilterAddArgs::new(
            "My Filter".to_string(),
            "today".to_string(),
        ))
        .build();
    assert_eq!(commands.len(), 1);

    let cmd = &commands[0];
    assert_eq!(cmd.type_, "filter_add");
    assert!(cmd.temp_id.is_some());
}

#[test]
fn test_filter_add_with_color() {
    let commands = CommandBuilder::new()
        .filter_add(
            FilterAddArgs::new("My Filter".to_string(), "overdue".to_string())
                .color(Some("green".to_string())),
        )
        .build();
    assert_eq!(commands.len(), 1);

    let cmd = &commands[0];
    assert_eq!(cmd.type_, "filter_add");
    assert!(cmd.temp_id.is_some());
}

#[test]
fn test_filter_update_command() {
    let commands = CommandBuilder::new()
        .filter_update(
            "123",
            Some("Updated Filter"),
            Some("today | overdue"),
            Some("blue"),
        )
        .build();
    assert_eq!(commands.len(), 1);

    let cmd = &commands[0];
    assert_eq!(cmd.type_, "filter_update");
    assert!(cmd.temp_id.is_none());
}

#[test]
fn test_filter_delete_command() {
    let commands = CommandBuilder::new().filter_delete("123").build();
    assert_eq!(commands.len(), 1);

    let cmd = &commands[0];
    assert_eq!(cmd.type_, "filter_delete");
    assert!(cmd.temp_id.is_none());
}

#[test]
fn test_command_builder_default() {
    let builder = CommandBuilder::default();
    assert!(builder.build().is_empty());
}

#[test]
fn test_item_add_args_builder_pattern() {
    let args = ItemAddArgs::new("New Task".to_string())
        .description(Some("Task description".to_string()))
        .project_id(Some("123".to_string()))
        .section_id(Some("456".to_string()))
        .due_string(Some("tomorrow".to_string()))
        .priority(Some(4))
        .labels(Some(vec!["label1".to_string(), "label2".to_string()]));

    let commands = CommandBuilder::new().item_add(args).build();
    assert_eq!(commands.len(), 1);

    let cmd = &commands[0];
    assert_eq!(cmd.type_, "item_add");
    assert!(cmd.temp_id.is_some());
}

#[test]
fn test_item_update_args_builder_pattern() {
    let args = ItemUpdateArgs::new("123".to_string())
        .content(Some("Updated content".to_string()))
        .description(Some("Updated description".to_string()))
        .priority(Some(3))
        .due_string(Some("next week".to_string()))
        .due_datetime(Some("2024-01-15T10:00:00".to_string()))
        .due_lang(Some("en".to_string()))
        .labels(Some(vec!["tag1".to_string()]));

    let commands = CommandBuilder::new().item_update(args).build();
    assert_eq!(commands.len(), 1);

    let cmd = &commands[0];
    assert_eq!(cmd.type_, "item_update");
}

#[test]
fn test_label_add_args_builder_pattern() {
    let args = LabelAddArgs::new("new_label".to_string()).color(Some("yellow".to_string()));
    let commands = CommandBuilder::new().label_add(args).build();
    assert_eq!(commands.len(), 1);
}

#[test]
fn test_filter_add_args_builder_pattern() {
    let args = FilterAddArgs::new("Filter Name".to_string(), "p1 & @work".to_string())
        .color(Some("purple".to_string()));
    let commands = CommandBuilder::new().filter_add(args).build();
    assert_eq!(commands.len(), 1);
}

#[test]
fn test_section_order_args() {
    let args = SectionOrderArgs::new("123".to_string(), 5);
    assert_eq!(args.id, "123");
    assert_eq!(args.order, 5);
}

#[test]
fn test_filter_order_args() {
    let args = FilterOrderArgs::new("456".to_string(), 10);
    assert_eq!(args.id, "456");
    assert_eq!(args.order, 10);
}

#[test]
fn test_command_type_field() {
    let item_add = CommandBuilder::new()
        .item_add(ItemAddArgs::new("Task".to_string()))
        .build();
    assert_eq!(item_add[0].type_, "item_add");

    let item_close = CommandBuilder::new().item_close("123").build();
    assert_eq!(item_close[0].type_, "item_close");

    let project_add = CommandBuilder::new()
        .project_add(ProjectAddArgs::new("Project".to_string()))
        .build();
    assert_eq!(project_add[0].type_, "project_add");
}

#[test]
fn test_empty_builder_build() {
    let commands = CommandBuilder::new().build();
    assert!(commands.is_empty());
}


#[test]
fn generated_identifiers_are_hyphenated_uuids() {
    let u = Command::generate_uuid();
    let t = Command::generate_temp_id();
    assert_eq!(u.len(), 36);
    assert_eq!(t.len(), 36);
    assert_eq!(u.matches('-').count(), 4);
    assert_ne!(u, t);
}

#[test]
fn correlation_and_placeholder_differ_within_batch() {
    let commands = CommandBuilder::new()
        .item_add(ItemAddArgs::new("A".to_string()))
        .project_add(ProjectAddArgs::new("B".to_string()))
        .build();
    let mut ids: Vec<String> = Vec::new();
    for c in &commands {
        ids.push(c.uuid.clone());
        ids.push(c.temp_id.clone().unwrap());
    }
    let mut sorted = ids.clone();
    sorted.sort();
    sorted.dedup();
    assert_eq!(sorted.len(), 4);
}

#[test]
fn builder_keeps_submission_order_and_arguments() {
    let commands = CommandBuilder::new()
        .item_move("1", "2", Some("3"))
        .project_update("9", Some("N"), None, Some(true))
        .build();
    assert_eq!(commands[0].type_, "item_move");
    assert_eq!(commands[1].type_, "project_update");
    match &commands[0].args {
        CommandArgs::ItemMove { id, project_id, section_id } => {
            assert_eq!(id, "1");
            assert_eq!(project_id, "2");
            assert_eq!(section_id.as_deref(), Some("3"));
        }
        other => panic!("unexpected arguments {:?}", other),
    }
    match &commands[1].args {
        CommandArgs::ProjectUpdate { id, name, color, favorite } => {
            assert_eq!(id, "9");
            assert_eq!(name.as_deref(), Some("N"));
            assert!(color.is_none());
            assert_eq!(*favorite, Some(true));
        }
        other => panic!("unexpected arguments {:?}", other),
    }
}

#[test]
fn args_setters_set_only_their_field() {
    let args = ItemAddArgs::new("c".to_string()).priority(Some(3));
    assert_eq!(args.content, "c");
    assert_eq!(args.priority, Some(3));
    assert!(args.description.is_none());
    assert!(args.labels.is_none());
    let upd = ItemUpdateArgs::new("7".to_string()).due_lang(Some("en".to_string()));
    assert_eq!(upd.id, "7");
    assert_eq!(upd.due_lang.as_deref(), Some("en"));
    assert!(upd.content.is_none());
    let s = SectionAddArgs::new("n".to_string(), "p".to_string());
    assert_eq!(s.name, "n");
    assert_eq!(s.project_id, "p");
    let l = LabelAddArgs::new("x".to_string()).color(Some("red".to_string()));
    assert_eq!(l.color.as_deref(), Some("red"));
    let f = FilterAddArgs::new("n".to_string(), "q".to_string());
    assert!(f.color.is_none());
}
