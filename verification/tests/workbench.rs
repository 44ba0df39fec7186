use lapce_data::command::{LapceWorkbenchCommand, WORKBENCH_COMMAND_COUNT};
use strum::ParseError;

#[test]
fn names_of_commands() {
    assert_eq!(LapceWorkbenchCommand::EnableModal.to_str(), "enable_modal_editing");
    assert_eq!(LapceWorkbenchCommand::PaletteLine.to_str(), "palette.line");
    assert_eq!(LapceWorkbenchCommand::Palette.to_str(), "palette");
    assert_eq!(
        LapceWorkbenchCommand::CheckoutBranch.to_str(),
        "source_control.checkout_branch"
    );
    assert_eq!(LapceWorkbenchCommand::InstallTheme.to_str(), "install_theme");
    assert_eq!(LapceWorkbenchCommand::OpenFile.to_string(), String::from("open_file"));
    assert_eq!(
        LapceWorkbenchCommand::ToggleSearchVisual.to_string(),
        String::from("toggle_search_visual")
    );
}

#[test]
fn messages_of_commands() {
    assert_eq!(LapceWorkbenchCommand::EnableModal.get_message(), Some("modal編集の有効化"));
    assert_eq!(LapceWorkbenchCommand::Palette.get_message(), Some("fileへ移動"));
    assert_eq!(LapceWorkbenchCommand::PaletteCommand.get_message(), Some("command palette"));
    assert_eq!(
        LapceWorkbenchCommand::ToggleTerminalFocus.get_message(),
        Some("Toggle Terminal Focus")
    );
    assert_eq!(LapceWorkbenchCommand::PaletteLine.get_message(), None);
    assert_eq!(LapceWorkbenchCommand::FocusEditor.get_message(), None);
    assert_eq!(
        LapceWorkbenchCommand::InstallTheme.get_detailed_message(),
        Some("current theme fileをinstall")
    );
    assert_eq!(LapceWorkbenchCommand::HidePanel.get_detailed_message(), None);
}

#[test]
fn documentation_of_commands() {
    assert_eq!(
        LapceWorkbenchCommand::TogglePanelFocus.get_documentation(),
        Some("Toggles the panel passed in parameter.")
    );
    assert_eq!(
        LapceWorkbenchCommand::TogglePanelVisual.get_documentation(),
        Some("Toggles the panel passed in parameter.")
    );
    assert_eq!(LapceWorkbenchCommand::ToggleTerminalFocus.get_documentation(), None);
}

#[test]
fn serializations_of_commands() {
    assert_eq!(LapceWorkbenchCommand::ConnectWsl.get_serializations(), vec!["connect_wsl"]);
    for c in LapceWorkbenchCommand::iter() {
        assert_eq!(c.get_serializations(), vec![c.to_str()]);
    }
}

#[test]
fn parse_names() {
    assert_eq!(
        LapceWorkbenchCommand::from_str("palette.workspace"),
        Ok(LapceWorkbenchCommand::PaletteWorkspace)
    );
    assert_eq!(
        LapceWorkbenchCommand::from_str("open_keyboard_shortcuts_file"),
        Ok(LapceWorkbenchCommand::OpenKeyboardShortcutsFile)
    );
    assert_eq!(LapceWorkbenchCommand::from_str("Palette"), Err(ParseError::VariantNotFound));
    assert_eq!(LapceWorkbenchCommand::from_str(""), Err(ParseError::VariantNotFound));
    assert_eq!(LapceWorkbenchCommand::from_str("palette "), Err(ParseError::VariantNotFound));
    assert_eq!(LapceWorkbenchCommand::from_str("modal編集の有効化"), Err(ParseError::VariantNotFound));
}

#[test]
fn parse_name_of_every_command() {
    for c in LapceWorkbenchCommand::iter() {
        assert_eq!(LapceWorkbenchCommand::from_str(c.to_str()), Ok(c));
        assert_eq!(LapceWorkbenchCommand::from_str(&c.to_string()), Ok(c));
    }
}

#[test]
fn iterate_commands() {
    let all = LapceWorkbenchCommand::iter();
    assert_eq!(all.len(), WORKBENCH_COMMAND_COUNT);
    assert_eq!(all.len(), 49);
    assert_eq!(all[0], LapceWorkbenchCommand::EnableModal);
    assert_eq!(all[1], LapceWorkbenchCommand::DisableModal);
    assert_eq!(all[22], LapceWorkbenchCommand::Palette);
    assert_eq!(all[48], LapceWorkbenchCommand::InstallTheme);
    for i in 0..all.len() {
        for j in 0..all.len() {
            if i != j {
                assert_ne!(all[i], all[j]);
                assert_ne!(all[i].to_str(), all[j].to_str());
            }
        }
    }
}

#[test]
fn conversions_to_static_names() {
    let name: &'static str = LapceWorkbenchCommand::PaletteSymbol.into();
    assert_eq!(name, "palette.symbol");
    let command = LapceWorkbenchCommand::DisconnectRemote;
    let name: &'static str = (&command).into();
    assert_eq!(name, "disconnect_remote");
}

#[test]
fn standard_parsing() {
    let parsed: Result<LapceWorkbenchCommand, ParseError> = "toggle_plugin_focus".parse();
    assert_eq!(parsed, Ok(LapceWorkbenchCommand::TogglePluginFocus));
    let parsed: Result<LapceWorkbenchCommand, ParseError> = "toggle_plugin".parse();
    assert_eq!(parsed, Err(ParseError::VariantNotFound));
    assert_eq!(
        LapceWorkbenchCommand::try_from("new_window_tab"),
        Ok(LapceWorkbenchCommand::NewWindowTab)
    );
    assert_eq!(LapceWorkbenchCommand::try_from("new_window_"), Err(ParseError::VariantNotFound));
}
