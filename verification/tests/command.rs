use lapce_data::command::{
    CommandExecuted, CommandKind, CoreCommand, EnsureVisiblePosition, LapceCommand,
    LapceWorkbenchCommand,
};

fn workbench(c: LapceWorkbenchCommand) -> LapceCommand {
    LapceCommand { kind: CommandKind::Workbench(c), data: None }
}

fn core_command(name: &'static str, message: Option<&'static str>) -> CoreCommand {
    CoreCommand { name, message }
}

#[test]
fn palette_commands() {
    let palettes = [
        LapceWorkbenchCommand::Palette,
        LapceWorkbenchCommand::PaletteLine,
        LapceWorkbenchCommand::PaletteSymbol,
        LapceWorkbenchCommand::PaletteCommand,
        LapceWorkbenchCommand::ChangeTheme,
        LapceWorkbenchCommand::ConnectSshHost,
        LapceWorkbenchCommand::ConnectWsl,
        LapceWorkbenchCommand::PaletteWorkspace,
    ];
    for c in LapceWorkbenchCommand::iter() {
        assert_eq!(workbench(c).is_palette_command(), palettes.contains(&c));
    }
    assert!(workbench(LapceWorkbenchCommand::Palette).is_palette_command());
    assert!(!workbench(LapceWorkbenchCommand::OpenFile).is_palette_command());
    assert!(!workbench(LapceWorkbenchCommand::DisconnectRemote).is_palette_command());
}

#[test]
fn palette_command_with_data() {
    let command = LapceCommand {
        kind: CommandKind::Workbench(LapceWorkbenchCommand::PaletteLine),
        data: Some(serde_json::Value::from(12)),
    };
    assert!(command.is_palette_command());
}

#[test]
fn core_commands_are_not_palettes() {
    let kinds = [
        CommandKind::Edit(core_command("palette", None)),
        CommandKind::Move(core_command("palette", None)),
        CommandKind::Focus(core_command("palette", None)),
        CommandKind::MotionMode(core_command("palette", None)),
        CommandKind::MultiSelection(core_command("palette", None)),
    ];
    for kind in kinds {
        assert!(!LapceCommand { kind, data: None }.is_palette_command());
    }
}

#[test]
fn palette_name() {
    assert_eq!(LapceCommand::PALETTE, "palette");
    assert_eq!(
        LapceWorkbenchCommand::from_str(LapceCommand::PALETTE),
        Ok(LapceWorkbenchCommand::Palette)
    );
}

#[test]
fn names_and_descriptions_of_kinds() {
    let kind = CommandKind::Workbench(LapceWorkbenchCommand::OpenFolder);
    assert_eq!(kind.str(), "open_folder");
    assert_eq!(kind.desc(), Some("folderを開く"));
    let kind = CommandKind::Workbench(LapceWorkbenchCommand::ShowPanel);
    assert_eq!(kind.str(), "show_panel");
    assert_eq!(kind.desc(), None);
    let kind = CommandKind::Edit(core_command("undo", Some("Undo")));
    assert_eq!(kind.str(), "undo");
    assert_eq!(kind.desc(), Some("Undo"));
    let kind = CommandKind::Move(core_command("left", None));
    assert_eq!(kind.str(), "left");
    assert_eq!(kind.desc(), None);
    let kind = CommandKind::Focus(core_command("split_vertical", Some("Split Vertical")));
    assert_eq!(kind.str(), "split_vertical");
    assert_eq!(kind.desc(), Some("Split Vertical"));
    let kind = CommandKind::MotionMode(core_command("motion_mode_delete", Some("Delete")));
    assert_eq!(kind.str(), "motion_mode_delete");
    assert_eq!(kind.desc(), Some("Delete"));
    let kind = CommandKind::MultiSelection(core_command("select_all", Some("Select All")));
    assert_eq!(kind.str(), "select_all");
    assert_eq!(kind.desc(), Some("Select All"));
}

#[test]
fn command_executed() {
    assert!(CommandExecuted::Yes == CommandExecuted::Yes);
    assert!(CommandExecuted::No == CommandExecuted::No);
    assert!(CommandExecuted::Yes != CommandExecuted::No);
}

#[test]
fn ensure_visible_positions() {
    let positions = [
        EnsureVisiblePosition::CenterOfWindow,
        EnsureVisiblePosition::TopOfWindow,
        EnsureVisiblePosition::BottomOfWindow,
    ];
    assert!(matches!(positions[0], EnsureVisiblePosition::CenterOfWindow));
    assert!(matches!(positions[1], EnsureVisiblePosition::TopOfWindow));
    assert!(matches!(positions[2], EnsureVisiblePosition::BottomOfWindow));
    assert_eq!(format!("{:?}", positions[2]), "BottomOfWindow");
}
