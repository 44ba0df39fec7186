use lapce_data::command::{
    lapce_internal_commands, CommandKind, CoreCommand, CoreCommands, LapceWorkbenchCommand,
};

fn no_core() -> CoreCommands {
    CoreCommands {
        edit: vec![],
        movement: vec![],
        focus: vec![],
        motion_mode: vec![],
        multi_selection: vec![],
    }
}

fn core_command(name: &'static str, message: Option<&'static str>) -> CoreCommand {
    CoreCommand { name, message }
}

#[test]
fn workbench_commands_in_order() {
    let commands = lapce_internal_commands(&no_core());
    assert_eq!(commands.len(), 49);
    let all = LapceWorkbenchCommand::iter();
    for (i, (name, command)) in commands.iter().enumerate() {
        assert_eq!(name.as_str(), all[i].to_str());
        assert!(matches!(command.kind, CommandKind::Workbench(c) if c == all[i]));
        assert!(command.data.is_none());
    }
    assert_eq!(commands.get_index_of("enable_modal_editing"), Some(0));
    assert_eq!(commands.get_index_of("install_theme"), Some(48));
    assert!(matches!(
        commands.get("palette").unwrap().kind,
        CommandKind::Workbench(LapceWorkbenchCommand::Palette)
    ));
    assert!(commands.get("undo").is_none());
}

#[test]
fn core_commands_follow_by_kind() {
    let core_commands = CoreCommands {
        edit: vec![core_command("undo", Some("Undo")), core_command("redo", None)],
        movement: vec![core_command("left", None)],
        focus: vec![core_command("split_vertical", Some("Split Vertical"))],
        motion_mode: vec![core_command("motion_mode_delete", None)],
        multi_selection: vec![core_command("select_all", Some("Select All"))],
    };
    let commands = lapce_internal_commands(&core_commands);
    assert_eq!(commands.len(), 49 + 6);
    let names: Vec<&str> = commands.keys().skip(49).map(|k| k.as_str()).collect();
    assert_eq!(
        names,
        vec!["undo", "redo", "left", "split_vertical", "motion_mode_delete", "select_all"]
    );
    assert!(matches!(commands.get("undo").unwrap().kind, CommandKind::Edit(c) if c.message == Some("Undo")));
    assert!(matches!(commands.get("redo").unwrap().kind, CommandKind::Edit(_)));
    assert!(matches!(commands.get("left").unwrap().kind, CommandKind::Move(_)));
    assert!(matches!(commands.get("split_vertical").unwrap().kind, CommandKind::Focus(_)));
    assert!(matches!(
        commands.get("motion_mode_delete").unwrap().kind,
        CommandKind::MotionMode(_)
    ));
    assert!(matches!(
        commands.get("select_all").unwrap().kind,
        CommandKind::MultiSelection(_)
    ));
    for (name, command) in commands.iter() {
        assert_eq!(name.as_str(), command.kind.str());
        assert!(command.data.is_none());
    }
}

#[test]
fn later_command_replaces_one_of_the_same_name() {
    let core_commands = CoreCommands {
        edit: vec![],
        movement: vec![],
        focus: vec![core_command("focus_editor", Some("Focus Editor"))],
        motion_mode: vec![],
        multi_selection: vec![],
    };
    let commands = lapce_internal_commands(&core_commands);
    assert_eq!(commands.len(), 49);
    let index = LapceWorkbenchCommand::FocusEditor as usize;
    assert_eq!(commands.get_index_of("focus_editor"), Some(index));
    assert!(matches!(
        commands.get("focus_editor").unwrap().kind,
        CommandKind::Focus(c) if c.message == Some("Focus Editor")
    ));
}

#[test]
fn last_of_repeated_core_names_wins() {
    let core_commands = CoreCommands {
        edit: vec![core_command("join_lines", Some("first"))],
        movement: vec![],
        focus: vec![],
        motion_mode: vec![],
        multi_selection: vec![core_command("join_lines", Some("second"))],
    };
    let commands = lapce_internal_commands(&core_commands);
    assert_eq!(commands.len(), 50);
    assert_eq!(commands.get_index_of("join_lines"), Some(49));
    assert!(matches!(
        commands.get("join_lines").unwrap().kind,
        CommandKind::MultiSelection(c) if c.message == Some("second")
    ));
}
