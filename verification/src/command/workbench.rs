use vstd::prelude::*;



use super::text::{str_eq, opt_str_view};

verus! {

/// A command of the workbench: windows, folders, files, settings, the
/// palettes, the panels and their focus, themes and remote connections.
///
/// Each command has a name (under which it is displayed, parsed and
/// registered), and may have a short description and a documentation text.
#[derive(Clone, Copy, PartialEq, Eq, Debug, Structural)]
pub enum LapceWorkbenchCommand {
    EnableModal,
    DisableModal,
    OpenFolder,
    CloseFolder,
    OpenFile,
    ChangeTheme,
    OpenSettings,
    OpenSettingsFile,
    OpenKeyboardShortcuts,
    OpenKeyboardShortcutsFile,
    OpenLogFile,
    CloseWindowTab,
    NewWindowTab,
    NextWindowTab,
    PreviousWindowTab,
    ReloadWindow,
    NewWindow,
    NewFile,
    ConnectSshHost,
    ConnectWsl,
    DisconnectRemote,
    PaletteLine,
    Palette,
    PaletteSymbol,
    PaletteCommand,
    PaletteWorkspace,
    CheckoutBranch,
    ToggleMaximizedPanel,
    HidePanel,
    ShowPanel,
    /// Toggles the panel passed in parameter.
    TogglePanelFocus,
    /// Toggles the panel passed in parameter.
    TogglePanelVisual,
    ToggleTerminalFocus,
    ToggleSourceControlFocus,
    TogglePluginFocus,
    ToggleFileExplorerFocus,
    ToggleProblemFocus,
    ToggleSearchFocus,
    ToggleTerminalVisual,
    ToggleSourceControlVisual,
    TogglePluginVisual,
    ToggleFileExplorerVisual,
    ToggleProblemVisual,
    ToggleSearchVisual,
    FocusEditor,
    FocusTerminal,
    SourceControlCommit,
    ExportCurrentThemeSettings,
    InstallTheme,
}

/// `strum::ParseError`: the error of parsing a command from a name that no
/// command bears (its one variant, `VariantNotFound`).
#[verifier::external_type_specification]
pub struct ExParseError(strum::ParseError);

/// How many workbench commands there are.
pub const WORKBENCH_COMMAND_COUNT: usize = 49;

/// The workbench commands in the order in which they are declared.
pub open spec fn all_workbench_commands() -> Seq<LapceWorkbenchCommand> {
    Seq::new(WORKBENCH_COMMAND_COUNT as nat, |i: int| LapceWorkbenchCommand::from_ordinal(i))
}

impl LapceWorkbenchCommand {
    /// The name of the command: how it is displayed, parsed and registered.
    pub open spec fn name(self) -> Seq<char> {
        self.static_name()@
    }

    /// The name of the command as a static string.
    pub open spec fn static_name(self) -> &'static str {
        match self {
            LapceWorkbenchCommand::EnableModal => "enable_modal_editing",
            LapceWorkbenchCommand::DisableModal => "disable_modal_editing",
            LapceWorkbenchCommand::OpenFolder => "open_folder",
            LapceWorkbenchCommand::CloseFolder => "close_folder",
            LapceWorkbenchCommand::OpenFile => "open_file",
            LapceWorkbenchCommand::ChangeTheme => "change_theme",
            LapceWorkbenchCommand::OpenSettings => "open_settings",
            LapceWorkbenchCommand::OpenSettingsFile => "open_settings_file",
            LapceWorkbenchCommand::OpenKeyboardShortcuts => "open_keyboard_shortcuts",
            LapceWorkbenchCommand::OpenKeyboardShortcutsFile => "open_keyboard_shortcuts_file",
            LapceWorkbenchCommand::OpenLogFile => "open_log_file",
            LapceWorkbenchCommand::CloseWindowTab => "close_window_tab",
            LapceWorkbenchCommand::NewWindowTab => "new_window_tab",
            LapceWorkbenchCommand::NextWindowTab => "next_window_tab",
            LapceWorkbenchCommand::PreviousWindowTab => "previous_window_tab",
            LapceWorkbenchCommand::ReloadWindow => "reload_window",
            LapceWorkbenchCommand::NewWindow => "new_window",
            LapceWorkbenchCommand::NewFile => "new_file",
            LapceWorkbenchCommand::ConnectSshHost => "connect_ssh_host",
            LapceWorkbenchCommand::ConnectWsl => "connect_wsl",
            LapceWorkbenchCommand::DisconnectRemote => "disconnect_remote",
            LapceWorkbenchCommand::PaletteLine => "palette.line",
            LapceWorkbenchCommand::Palette => "palette",
            LapceWorkbenchCommand::PaletteSymbol => "palette.symbol",
            LapceWorkbenchCommand::PaletteCommand => "palette.command",
            LapceWorkbenchCommand::PaletteWorkspace => "palette.workspace",
            LapceWorkbenchCommand::CheckoutBranch => "source_control.checkout_branch",
            LapceWorkbenchCommand::ToggleMaximizedPanel => "toggle_maximized_panel",
            LapceWorkbenchCommand::HidePanel => "hide_panel",
            LapceWorkbenchCommand::ShowPanel => "show_panel",
            LapceWorkbenchCommand::TogglePanelFocus => "toggle_panel_focus",
            LapceWorkbenchCommand::TogglePanelVisual => "toggle_panel_visual",
            LapceWorkbenchCommand::ToggleTerminalFocus => "toggle_terminal_focus",
            LapceWorkbenchCommand::ToggleSourceControlFocus => "toggle_source_control_focus",
            LapceWorkbenchCommand::TogglePluginFocus => "toggle_plugin_focus",
            LapceWorkbenchCommand::ToggleFileExplorerFocus => "toggle_file_explorer_focus",
            LapceWorkbenchCommand::ToggleProblemFocus => "toggle_problem_focus",
            LapceWorkbenchCommand::ToggleSearchFocus => "toggle_search_focus",
            LapceWorkbenchCommand::ToggleTerminalVisual => "toggle_terminal_visual",
            LapceWorkbenchCommand::ToggleSourceControlVisual => "toggle_source_control_visual",
            LapceWorkbenchCommand::TogglePluginVisual => "toggle_plugin_visual",
            LapceWorkbenchCommand::ToggleFileExplorerVisual => "toggle_file_explorer_visual",
            LapceWorkbenchCommand::ToggleProblemVisual => "toggle_problem_visual",
            LapceWorkbenchCommand::ToggleSearchVisual => "toggle_search_visual",
            LapceWorkbenchCommand::FocusEditor => "focus_editor",
            LapceWorkbenchCommand::FocusTerminal => "focus_terminal",
            LapceWorkbenchCommand::SourceControlCommit => "source_control_commit",
            LapceWorkbenchCommand::ExportCurrentThemeSettings => "export_current_theme_settings",
            LapceWorkbenchCommand::InstallTheme => "install_theme",
        }
    }

    /// The short description of the command, where it has one.
    pub open spec fn message(self) -> Option<Seq<char>> {
        match self {
            LapceWorkbenchCommand::EnableModal => Some("modal編集の有効化"@),
            LapceWorkbenchCommand::DisableModal => Some("modal編集の無効化"@),
            LapceWorkbenchCommand::OpenFolder => Some("folderを開く"@),
            LapceWorkbenchCommand::CloseFolder => Some("folderを閉じる"@),
            LapceWorkbenchCommand::OpenFile => Some("fileを開く"@),
            LapceWorkbenchCommand::ChangeTheme => Some("themeの変更"@),
            LapceWorkbenchCommand::OpenSettings => Some("設定を開く"@),
            LapceWorkbenchCommand::OpenSettingsFile => Some("設定fileを開く"@),
            LapceWorkbenchCommand::OpenKeyboardShortcuts => Some("keyboad shortcutを開く"@),
            LapceWorkbenchCommand::OpenKeyboardShortcutsFile => Some("keyboad shortcutのfileを開く"@),
            LapceWorkbenchCommand::OpenLogFile => Some("log fileを開く"@),
            LapceWorkbenchCommand::CloseWindowTab => Some("現在のWindow Tabを閉じる"@),
            LapceWorkbenchCommand::NewWindowTab => Some("新しいWindow Tabを作成する"@),
            LapceWorkbenchCommand::NextWindowTab => Some("次のWindow Tabへ"@),
            LapceWorkbenchCommand::PreviousWindowTab => Some("前のWindow Tabへ"@),
            LapceWorkbenchCommand::ReloadWindow => Some("windowの再読み込み"@),
            LapceWorkbenchCommand::NewWindow => Some("新規window"@),
            LapceWorkbenchCommand::NewFile => Some("新規file"@),
            LapceWorkbenchCommand::ConnectSshHost => Some("SSH hostに接続"@),
            LapceWorkbenchCommand::ConnectWsl => Some("WSLに接続"@),
            LapceWorkbenchCommand::DisconnectRemote => Some("remote接続を切断"@),
            LapceWorkbenchCommand::Palette => Some("fileへ移動"@),
            LapceWorkbenchCommand::PaletteCommand => Some("command palette"@),
            LapceWorkbenchCommand::PaletteWorkspace => Some("最近のworkspaceを開く"@),
            LapceWorkbenchCommand::ToggleTerminalFocus => Some("Toggle Terminal Focus"@),
            LapceWorkbenchCommand::TogglePluginFocus => Some("pluginのfocus切り替え"@),
            LapceWorkbenchCommand::ToggleFileExplorerFocus => Some("file explorerのfocus切り替え"@),
            LapceWorkbenchCommand::ToggleProblemFocus => Some("ploblemのfocus切り替え"@),
            LapceWorkbenchCommand::ToggleSearchFocus => Some("searchのfocus切り替え"@),
            LapceWorkbenchCommand::ExportCurrentThemeSettings => Some("current settingsをtheme fileにexport"@),
            LapceWorkbenchCommand::InstallTheme => Some("current theme fileをinstall"@),
            _ => None,
        }
    }

    /// The documentation of the command, where it has one.
    pub open spec fn documentation(self) -> Option<Seq<char>> {
        match self {
            LapceWorkbenchCommand::TogglePanelFocus => Some("Toggles the panel passed in parameter."@),
            LapceWorkbenchCommand::TogglePanelVisual => Some("Toggles the panel passed in parameter."@),
            _ => None,
        }
    }

    /// The position of the command in the declaration.
    pub open spec fn ordinal(self) -> int {
        match self {
            LapceWorkbenchCommand::EnableModal => 0,
            LapceWorkbenchCommand::DisableModal => 1,
            LapceWorkbenchCommand::OpenFolder => 2,
            LapceWorkbenchCommand::CloseFolder => 3,
            LapceWorkbenchCommand::OpenFile => 4,
            LapceWorkbenchCommand::ChangeTheme => 5,
            LapceWorkbenchCommand::OpenSettings => 6,
            LapceWorkbenchCommand::OpenSettingsFile => 7,
            LapceWorkbenchCommand::OpenKeyboardShortcuts => 8,
            LapceWorkbenchCommand::OpenKeyboardShortcutsFile => 9,
            LapceWorkbenchCommand::OpenLogFile => 10,
            LapceWorkbenchCommand::CloseWindowTab => 11,
            LapceWorkbenchCommand::NewWindowTab => 12,
            LapceWorkbenchCommand::NextWindowTab => 13,
            LapceWorkbenchCommand::PreviousWindowTab => 14,
            LapceWorkbenchCommand::ReloadWindow => 15,
            LapceWorkbenchCommand::NewWindow => 16,
            LapceWorkbenchCommand::NewFile => 17,
            LapceWorkbenchCommand::ConnectSshHost => 18,
            LapceWorkbenchCommand::ConnectWsl => 19,
            LapceWorkbenchCommand::DisconnectRemote => 20,
            LapceWorkbenchCommand::PaletteLine => 21,
            LapceWorkbenchCommand::Palette => 22,
            LapceWorkbenchCommand::PaletteSymbol => 23,
            LapceWorkbenchCommand::PaletteCommand => 24,
            LapceWorkbenchCommand::PaletteWorkspace => 25,
            LapceWorkbenchCommand::CheckoutBranch => 26,
            LapceWorkbenchCommand::ToggleMaximizedPanel => 27,
            LapceWorkbenchCommand::HidePanel => 28,
            LapceWorkbenchCommand::ShowPanel => 29,
            LapceWorkbenchCommand::TogglePanelFocus => 30,
            LapceWorkbenchCommand::TogglePanelVisual => 31,
            LapceWorkbenchCommand::ToggleTerminalFocus => 32,
            LapceWorkbenchCommand::ToggleSourceControlFocus => 33,
            LapceWorkbenchCommand::TogglePluginFocus => 34,
            LapceWorkbenchCommand::ToggleFileExplorerFocus => 35,
            LapceWorkbenchCommand::ToggleProblemFocus => 36,
            LapceWorkbenchCommand::ToggleSearchFocus => 37,
            LapceWorkbenchCommand::ToggleTerminalVisual => 38,
            LapceWorkbenchCommand::ToggleSourceControlVisual => 39,
            LapceWorkbenchCommand::TogglePluginVisual => 40,
            LapceWorkbenchCommand::ToggleFileExplorerVisual => 41,
            LapceWorkbenchCommand::ToggleProblemVisual => 42,
            LapceWorkbenchCommand::ToggleSearchVisual => 43,
            LapceWorkbenchCommand::FocusEditor => 44,
            LapceWorkbenchCommand::FocusTerminal => 45,
            LapceWorkbenchCommand::SourceControlCommit => 46,
            LapceWorkbenchCommand::ExportCurrentThemeSettings => 47,
            LapceWorkbenchCommand::InstallTheme => 48,
        }
    }

    /// The command at a position of the declaration (the last one past the end).
    pub open spec fn from_ordinal(i: int) -> Self {
        if i == 0 {
            LapceWorkbenchCommand::EnableModal
        } else if i == 1 {
            LapceWorkbenchCommand::DisableModal
        } else if i == 2 {
            LapceWorkbenchCommand::OpenFolder
        } else if i == 3 {
            LapceWorkbenchCommand::CloseFolder
        } else if i == 4 {
            LapceWorkbenchCommand::OpenFile
        } else if i == 5 {
            LapceWorkbenchCommand::ChangeTheme
        } else if i == 6 {
            LapceWorkbenchCommand::OpenSettings
        } else if i == 7 {
            LapceWorkbenchCommand::OpenSettingsFile
        } else if i == 8 {
            LapceWorkbenchCommand::OpenKeyboardShortcuts
        } else if i == 9 {
            LapceWorkbenchCommand::OpenKeyboardShortcutsFile
        } else if i == 10 {
            LapceWorkbenchCommand::OpenLogFile
        } else if i == 11 {
            LapceWorkbenchCommand::CloseWindowTab
        } else if i == 12 {
            LapceWorkbenchCommand::NewWindowTab
        } else if i == 13 {
            LapceWorkbenchCommand::NextWindowTab
        } else if i == 14 {
            LapceWorkbenchCommand::PreviousWindowTab
        } else if i == 15 {
            LapceWorkbenchCommand::ReloadWindow
        } else if i == 16 {
            LapceWorkbenchCommand::NewWindow
        } else if i == 17 {
            LapceWorkbenchCommand::NewFile
        } else if i == 18 {
            LapceWorkbenchCommand::ConnectSshHost
        } else if i == 19 {
            LapceWorkbenchCommand::ConnectWsl
        } else if i == 20 {
            LapceWorkbenchCommand::DisconnectRemote
        } else if i == 21 {
            LapceWorkbenchCommand::PaletteLine
        } else if i == 22 {
            LapceWorkbenchCommand::Palette
        } else if i == 23 {
            LapceWorkbenchCommand::PaletteSymbol
        } else if i == 24 {
            LapceWorkbenchCommand::PaletteCommand
        } else if i == 25 {
            LapceWorkbenchCommand::PaletteWorkspace
        } else if i == 26 {
            LapceWorkbenchCommand::CheckoutBranch
        } else if i == 27 {
            LapceWorkbenchCommand::ToggleMaximizedPanel
        } else if i == 28 {
            LapceWorkbenchCommand::HidePanel
        } else if i == 29 {
            LapceWorkbenchCommand::ShowPanel
        } else if i == 30 {
            LapceWorkbenchCommand::TogglePanelFocus
        } else if i == 31 {
            LapceWorkbenchCommand::TogglePanelVisual
        } else if i == 32 {
            LapceWorkbenchCommand::ToggleTerminalFocus
        } else if i == 33 {
            LapceWorkbenchCommand::ToggleSourceControlFocus
        } else if i == 34 {
            LapceWorkbenchCommand::TogglePluginFocus
        } else if i == 35 {
            LapceWorkbenchCommand::ToggleFileExplorerFocus
        } else if i == 36 {
            LapceWorkbenchCommand::ToggleProblemFocus
        } else if i == 37 {
            LapceWorkbenchCommand::ToggleSearchFocus
        } else if i == 38 {
            LapceWorkbenchCommand::ToggleTerminalVisual
        } else if i == 39 {
            LapceWorkbenchCommand::ToggleSourceControlVisual
        } else if i == 40 {
            LapceWorkbenchCommand::TogglePluginVisual
        } else if i == 41 {
            LapceWorkbenchCommand::ToggleFileExplorerVisual
        } else if i == 42 {
            LapceWorkbenchCommand::ToggleProblemVisual
        } else if i == 43 {
            LapceWorkbenchCommand::ToggleSearchVisual
        } else if i == 44 {
            LapceWorkbenchCommand::FocusEditor
        } else if i == 45 {
            LapceWorkbenchCommand::FocusTerminal
        } else if i == 46 {
            LapceWorkbenchCommand::SourceControlCommit
        } else if i == 47 {
            LapceWorkbenchCommand::ExportCurrentThemeSettings
        } else {
            LapceWorkbenchCommand::InstallTheme
        }
    }

    /// The command that `s` names, where some command does.
    pub open spec fn parse_name(s: Seq<char>) -> Option<Self> {
        if exists|c: Self| c.name() == s {
            Some(choose|c: Self| c.name() == s)
        } else {
            None
        }
    }

    /// The name of the command as a static string.
    pub fn to_str(&self) -> (r: &'static str)
        ensures
            r == self.static_name(),
            r@ == self.name(),
    {
        match self {
            LapceWorkbenchCommand::EnableModal => "enable_modal_editing",
            LapceWorkbenchCommand::DisableModal => "disable_modal_editing",
            LapceWorkbenchCommand::OpenFolder => "open_folder",
            LapceWorkbenchCommand::CloseFolder => "close_folder",
            LapceWorkbenchCommand::OpenFile => "open_file",
            LapceWorkbenchCommand::ChangeTheme => "change_theme",
            LapceWorkbenchCommand::OpenSettings => "open_settings",
            LapceWorkbenchCommand::OpenSettingsFile => "open_settings_file",
            LapceWorkbenchCommand::OpenKeyboardShortcuts => "open_keyboard_shortcuts",
            LapceWorkbenchCommand::OpenKeyboardShortcutsFile => "open_keyboard_shortcuts_file",
            LapceWorkbenchCommand::OpenLogFile => "open_log_file",
            LapceWorkbenchCommand::CloseWindowTab => "close_window_tab",
            LapceWorkbenchCommand::NewWindowTab => "new_window_tab",
            LapceWorkbenchCommand::NextWindowTab => "next_window_tab",
            LapceWorkbenchCommand::PreviousWindowTab => "previous_window_tab",
            LapceWorkbenchCommand::ReloadWindow => "reload_window",
            LapceWorkbenchCommand::NewWindow => "new_window",
            LapceWorkbenchCommand::NewFile => "new_file",
            LapceWorkbenchCommand::ConnectSshHost => "connect_ssh_host",
            LapceWorkbenchCommand::ConnectWsl => "connect_wsl",
            LapceWorkbenchCommand::DisconnectRemote => "disconnect_remote",
            LapceWorkbenchCommand::PaletteLine => "palette.line",
            LapceWorkbenchCommand::Palette => "palette",
            LapceWorkbenchCommand::PaletteSymbol => "palette.symbol",
            LapceWorkbenchCommand::PaletteCommand => "palette.command",
            LapceWorkbenchCommand::PaletteWorkspace => "palette.workspace",
            LapceWorkbenchCommand::CheckoutBranch => "source_control.checkout_branch",
            LapceWorkbenchCommand::ToggleMaximizedPanel => "toggle_maximized_panel",
            LapceWorkbenchCommand::HidePanel => "hide_panel",
            LapceWorkbenchCommand::ShowPanel => "show_panel",
            LapceWorkbenchCommand::TogglePanelFocus => "toggle_panel_focus",
            LapceWorkbenchCommand::TogglePanelVisual => "toggle_panel_visual",
            LapceWorkbenchCommand::ToggleTerminalFocus => "toggle_terminal_focus",
            LapceWorkbenchCommand::ToggleSourceControlFocus => "toggle_source_control_focus",
            LapceWorkbenchCommand::TogglePluginFocus => "toggle_plugin_focus",
            LapceWorkbenchCommand::ToggleFileExplorerFocus => "toggle_file_explorer_focus",
            LapceWorkbenchCommand::ToggleProblemFocus => "toggle_problem_focus",
            LapceWorkbenchCommand::ToggleSearchFocus => "toggle_search_focus",
            LapceWorkbenchCommand::ToggleTerminalVisual => "toggle_terminal_visual",
            LapceWorkbenchCommand::ToggleSourceControlVisual => "toggle_source_control_visual",
            LapceWorkbenchCommand::TogglePluginVisual => "toggle_plugin_visual",
            LapceWorkbenchCommand::ToggleFileExplorerVisual => "toggle_file_explorer_visual",
            LapceWorkbenchCommand::ToggleProblemVisual => "toggle_problem_visual",
            LapceWorkbenchCommand::ToggleSearchVisual => "toggle_search_visual",
            LapceWorkbenchCommand::FocusEditor => "focus_editor",
            LapceWorkbenchCommand::FocusTerminal => "focus_terminal",
            LapceWorkbenchCommand::SourceControlCommit => "source_control_commit",
            LapceWorkbenchCommand::ExportCurrentThemeSettings => "export_current_theme_settings",
            LapceWorkbenchCommand::InstallTheme => "install_theme",
        }
    }

    /// The short description of the command, where it has one.
    pub fn get_message(&self) -> (r: Option<&'static str>)
        ensures
            opt_str_view(r) == self.message(),
    {
        match self {
            LapceWorkbenchCommand::EnableModal => Some("modal編集の有効化"),
            LapceWorkbenchCommand::DisableModal => Some("modal編集の無効化"),
            LapceWorkbenchCommand::OpenFolder => Some("folderを開く"),
            LapceWorkbenchCommand::CloseFolder => Some("folderを閉じる"),
            LapceWorkbenchCommand::OpenFile => Some("fileを開く"),
            LapceWorkbenchCommand::ChangeTheme => Some("themeの変更"),
            LapceWorkbenchCommand::OpenSettings => Some("設定を開く"),
            LapceWorkbenchCommand::OpenSettingsFile => Some("設定fileを開く"),
            LapceWorkbenchCommand::OpenKeyboardShortcuts => Some("keyboad shortcutを開く"),
            LapceWorkbenchCommand::OpenKeyboardShortcutsFile => Some("keyboad shortcutのfileを開く"),
            LapceWorkbenchCommand::OpenLogFile => Some("log fileを開く"),
            LapceWorkbenchCommand::CloseWindowTab => Some("現在のWindow Tabを閉じる"),
            LapceWorkbenchCommand::NewWindowTab => Some("新しいWindow Tabを作成する"),
            LapceWorkbenchCommand::NextWindowTab => Some("次のWindow Tabへ"),
            LapceWorkbenchCommand::PreviousWindowTab => Some("前のWindow Tabへ"),
            LapceWorkbenchCommand::ReloadWindow => Some("windowの再読み込み"),
            LapceWorkbenchCommand::NewWindow => Some("新規window"),
            LapceWorkbenchCommand::NewFile => Some("新規file"),
            LapceWorkbenchCommand::ConnectSshHost => Some("SSH hostに接続"),
            LapceWorkbenchCommand::ConnectWsl => Some("WSLに接続"),
            LapceWorkbenchCommand::DisconnectRemote => Some("remote接続を切断"),
            LapceWorkbenchCommand::Palette => Some("fileへ移動"),
            LapceWorkbenchCommand::PaletteCommand => Some("command palette"),
            LapceWorkbenchCommand::PaletteWorkspace => Some("最近のworkspaceを開く"),
            LapceWorkbenchCommand::ToggleTerminalFocus => Some("Toggle Terminal Focus"),
            LapceWorkbenchCommand::TogglePluginFocus => Some("pluginのfocus切り替え"),
            LapceWorkbenchCommand::ToggleFileExplorerFocus => Some("file explorerのfocus切り替え"),
            LapceWorkbenchCommand::ToggleProblemFocus => Some("ploblemのfocus切り替え"),
            LapceWorkbenchCommand::ToggleSearchFocus => Some("searchのfocus切り替え"),
            LapceWorkbenchCommand::ExportCurrentThemeSettings => Some("current settingsをtheme fileにexport"),
            LapceWorkbenchCommand::InstallTheme => Some("current theme fileをinstall"),
            _ => None,
        }
    }

    /// The documentation of the command, where it has one.
    pub fn get_documentation(&self) -> (r: Option<&'static str>)
        ensures
            opt_str_view(r) == self.documentation(),
            r is Some <==> (*self == LapceWorkbenchCommand::TogglePanelFocus || *self
                == LapceWorkbenchCommand::TogglePanelVisual),
            r matches Some(d) ==> d@ == "Toggles the panel passed in parameter."@,
    {
        match self {
            LapceWorkbenchCommand::TogglePanelFocus => Some("Toggles the panel passed in parameter."),
            LapceWorkbenchCommand::TogglePanelVisual => Some("Toggles the panel passed in parameter."),
            _ => None,
        }
    }

    /// The command at a position of the declaration.
    fn at_ordinal(i: usize) -> (r: Self)
        requires
            i < WORKBENCH_COMMAND_COUNT,
        ensures
            r == Self::from_ordinal(i as int),
    {
        match i {
            0 => LapceWorkbenchCommand::EnableModal,
            1 => LapceWorkbenchCommand::DisableModal,
            2 => LapceWorkbenchCommand::OpenFolder,
            3 => LapceWorkbenchCommand::CloseFolder,
            4 => LapceWorkbenchCommand::OpenFile,
            5 => LapceWorkbenchCommand::ChangeTheme,
            6 => LapceWorkbenchCommand::OpenSettings,
            7 => LapceWorkbenchCommand::OpenSettingsFile,
            8 => LapceWorkbenchCommand::OpenKeyboardShortcuts,
            9 => LapceWorkbenchCommand::OpenKeyboardShortcutsFile,
            10 => LapceWorkbenchCommand::OpenLogFile,
            11 => LapceWorkbenchCommand::CloseWindowTab,
            12 => LapceWorkbenchCommand::NewWindowTab,
            13 => LapceWorkbenchCommand::NextWindowTab,
            14 => LapceWorkbenchCommand::PreviousWindowTab,
            15 => LapceWorkbenchCommand::ReloadWindow,
            16 => LapceWorkbenchCommand::NewWindow,
            17 => LapceWorkbenchCommand::NewFile,
            18 => LapceWorkbenchCommand::ConnectSshHost,
            19 => LapceWorkbenchCommand::ConnectWsl,
            20 => LapceWorkbenchCommand::DisconnectRemote,
            21 => LapceWorkbenchCommand::PaletteLine,
            22 => LapceWorkbenchCommand::Palette,
            23 => LapceWorkbenchCommand::PaletteSymbol,
            24 => LapceWorkbenchCommand::PaletteCommand,
            25 => LapceWorkbenchCommand::PaletteWorkspace,
            26 => LapceWorkbenchCommand::CheckoutBranch,
            27 => LapceWorkbenchCommand::ToggleMaximizedPanel,
            28 => LapceWorkbenchCommand::HidePanel,
            29 => LapceWorkbenchCommand::ShowPanel,
            30 => LapceWorkbenchCommand::TogglePanelFocus,
            31 => LapceWorkbenchCommand::TogglePanelVisual,
            32 => LapceWorkbenchCommand::ToggleTerminalFocus,
            33 => LapceWorkbenchCommand::ToggleSourceControlFocus,
            34 => LapceWorkbenchCommand::TogglePluginFocus,
            35 => LapceWorkbenchCommand::ToggleFileExplorerFocus,
            36 => LapceWorkbenchCommand::ToggleProblemFocus,
            37 => LapceWorkbenchCommand::ToggleSearchFocus,
            38 => LapceWorkbenchCommand::ToggleTerminalVisual,
            39 => LapceWorkbenchCommand::ToggleSourceControlVisual,
            40 => LapceWorkbenchCommand::TogglePluginVisual,
            41 => LapceWorkbenchCommand::ToggleFileExplorerVisual,
            42 => LapceWorkbenchCommand::ToggleProblemVisual,
            43 => LapceWorkbenchCommand::ToggleSearchVisual,
            44 => LapceWorkbenchCommand::FocusEditor,
            45 => LapceWorkbenchCommand::FocusTerminal,
            46 => LapceWorkbenchCommand::SourceControlCommit,
            47 => LapceWorkbenchCommand::ExportCurrentThemeSettings,
            _ => LapceWorkbenchCommand::InstallTheme,
        }
    }

    /// The command named `s`, found by comparing `s` with each name in turn.
    fn lookup(s: &str) -> (r: Option<Self>)
        ensures
            r matches Some(c) ==> c.name() == s@,
            r is None ==> forall|c: Self| c.name() != s@,
    {
        if str_eq(s, "enable_modal_editing") {
            return Some(LapceWorkbenchCommand::EnableModal);
        }
        if str_eq(s, "disable_modal_editing") {
            return Some(LapceWorkbenchCommand::DisableModal);
        }
        if str_eq(s, "open_folder") {
            return Some(LapceWorkbenchCommand::OpenFolder);
        }
        if str_eq(s, "close_folder") {
            return Some(LapceWorkbenchCommand::CloseFolder);
        }
        if str_eq(s, "open_file") {
            return Some(LapceWorkbenchCommand::OpenFile);
        }
        if str_eq(s, "change_theme") {
            return Some(LapceWorkbenchCommand::ChangeTheme);
        }
        if str_eq(s, "open_settings") {
            return Some(LapceWorkbenchCommand::OpenSettings);
        }
        if str_eq(s, "open_settings_file") {
            return Some(LapceWorkbenchCommand::OpenSettingsFile);
        }
        if str_eq(s, "open_keyboard_shortcuts") {
            return Some(LapceWorkbenchCommand::OpenKeyboardShortcuts);
        }
        if str_eq(s, "open_keyboard_shortcuts_file") {
            return Some(LapceWorkbenchCommand::OpenKeyboardShortcutsFile);
        }
        if str_eq(s, "open_log_file") {
            return Some(LapceWorkbenchCommand::OpenLogFile);
        }
        if str_eq(s, "close_window_tab") {
            return Some(LapceWorkbenchCommand::CloseWindowTab);
        }
        if str_eq(s, "new_window_tab") {
            return Some(LapceWorkbenchCommand::NewWindowTab);
        }
        if str_eq(s, "next_window_tab") {
            return Some(LapceWorkbenchCommand::NextWindowTab);
        }
        if str_eq(s, "previous_window_tab") {
            return Some(LapceWorkbenchCommand::PreviousWindowTab);
        }
        if str_eq(s, "reload_window") {
            return Some(LapceWorkbenchCommand::ReloadWindow);
        }
        if str_eq(s, "new_window") {
            return Some(LapceWorkbenchCommand::NewWindow);
        }
        if str_eq(s, "new_file") {
            return Some(LapceWorkbenchCommand::NewFile);
        }
        if str_eq(s, "connect_ssh_host") {
            return Some(LapceWorkbenchCommand::ConnectSshHost);
        }
        if str_eq(s, "connect_wsl") {
            return Some(LapceWorkbenchCommand::ConnectWsl);
        }
        if str_eq(s, "disconnect_remote") {
            return Some(LapceWorkbenchCommand::DisconnectRemote);
        }
        if str_eq(s, "palette.line") {
            return Some(LapceWorkbenchCommand::PaletteLine);
        }
        if str_eq(s, "palette") {
            return Some(LapceWorkbenchCommand::Palette);
        }
        if str_eq(s, "palette.symbol") {
            return Some(LapceWorkbenchCommand::PaletteSymbol);
        }
        if str_eq(s, "palette.command") {
            return Some(LapceWorkbenchCommand::PaletteCommand);
        }
        if str_eq(s, "palette.workspace") {
            return Some(LapceWorkbenchCommand::PaletteWorkspace);
        }
        if str_eq(s, "source_control.checkout_branch") {
            return Some(LapceWorkbenchCommand::CheckoutBranch);
        }
        if str_eq(s, "toggle_maximized_panel") {
            return Some(LapceWorkbenchCommand::ToggleMaximizedPanel);
        }
        if str_eq(s, "hide_panel") {
            return Some(LapceWorkbenchCommand::HidePanel);
        }
        if str_eq(s, "show_panel") {
            return Some(LapceWorkbenchCommand::ShowPanel);
        }
        if str_eq(s, "toggle_panel_focus") {
            return Some(LapceWorkbenchCommand::TogglePanelFocus);
        }
        if str_eq(s, "toggle_panel_visual") {
            return Some(LapceWorkbenchCommand::TogglePanelVisual);
        }
        if str_eq(s, "toggle_terminal_focus") {
            return Some(LapceWorkbenchCommand::ToggleTerminalFocus);
        }
        if str_eq(s, "toggle_source_control_focus") {
            return Some(LapceWorkbenchCommand::ToggleSourceControlFocus);
        }
        if str_eq(s, "toggle_plugin_focus") {
            return Some(LapceWorkbenchCommand::TogglePluginFocus);
        }
        if str_eq(s, "toggle_file_explorer_focus") {
            return Some(LapceWorkbenchCommand::ToggleFileExplorerFocus);
        }
        if str_eq(s, "toggle_problem_focus") {
            return Some(LapceWorkbenchCommand::ToggleProblemFocus);
        }
        if str_eq(s, "toggle_search_focus") {
            return Some(LapceWorkbenchCommand::ToggleSearchFocus);
        }
        if str_eq(s, "toggle_terminal_visual") {
            return Some(LapceWorkbenchCommand::ToggleTerminalVisual);
        }
        if str_eq(s, "toggle_source_control_visual") {
            return Some(LapceWorkbenchCommand::ToggleSourceControlVisual);
        }
        if str_eq(s, "toggle_plugin_visual") {
            return Some(LapceWorkbenchCommand::TogglePluginVisual);
        }
        if str_eq(s, "toggle_file_explorer_visual") {
            return Some(LapceWorkbenchCommand::ToggleFileExplorerVisual);
        }
        if str_eq(s, "toggle_problem_visual") {
            return Some(LapceWorkbenchCommand::ToggleProblemVisual);
        }
        if str_eq(s, "toggle_search_visual") {
            return Some(LapceWorkbenchCommand::ToggleSearchVisual);
        }
        if str_eq(s, "focus_editor") {
            return Some(LapceWorkbenchCommand::FocusEditor);
        }
        if str_eq(s, "focus_terminal") {
            return Some(LapceWorkbenchCommand::FocusTerminal);
        }
        if str_eq(s, "source_control_commit") {
            return Some(LapceWorkbenchCommand::SourceControlCommit);
        }
        if str_eq(s, "export_current_theme_settings") {
            return Some(LapceWorkbenchCommand::ExportCurrentThemeSettings);
        }
        if str_eq(s, "install_theme") {
            return Some(LapceWorkbenchCommand::InstallTheme);
        }
        None
    }

    /// The command whose name is `s`.
    pub fn from_str(s: &str) -> (r: Result<Self, strum::ParseError>)
        ensures
            r == (match Self::parse_name(s@) {
                Some(c) => Ok(c),
                None => Err(strum::ParseError::VariantNotFound),
            }),
    {
        match Self::lookup(s) {
            Some(c) => {
                proof {
                    lemma_parse_name_of_name(c);
                }
                Ok(c)
            },
            None => Err(strum::ParseError::VariantNotFound),
        }
    }

    /// The name of the command as an owned string.
    pub fn to_string(&self) -> (r: String)
        ensures
            r@ == self.name(),
    {
        self.to_str().to_owned()
    }

    /// The detailed description of the command; no command has one of its
    /// own, so it is the short description.
    pub fn get_detailed_message(&self) -> (r: Option<&'static str>)
        ensures
            opt_str_view(r) == self.message(),
    {
        self.get_message()
    }

    /// Every name under which the command is parsed: its one name.
    pub fn get_serializations(&self) -> (r: Vec<&'static str>)
        ensures
            r@.len() == 1,
            r@[0]@ == self.name(),
    {
        let mut v: Vec<&'static str> = Vec::new();
        v.push(self.to_str());
        v
    }

    /// Every workbench command, once each, in the order of the declaration.
    pub fn iter() -> (r: Vec<Self>)
        ensures
            r@ == all_workbench_commands(),
    {
        let mut v: Vec<Self> = Vec::new();
        let mut i: usize = 0;
        while i < WORKBENCH_COMMAND_COUNT
            invariant
                i <= WORKBENCH_COMMAND_COUNT,
                v@ =~= all_workbench_commands().take(i as int),
            decreases WORKBENCH_COMMAND_COUNT - i,
        {
            v.push(Self::at_ordinal(i));
            i = i + 1;
        }
        assert(v@ =~= all_workbench_commands());
        v
    }
}

impl std::str::FromStr for LapceWorkbenchCommand {
    type Err = strum::ParseError;

    /// The command whose name is `s`.
    fn from_str(s: &str) -> (r: Result<Self, strum::ParseError>)
        ensures
            r == (match Self::parse_name(s@) {
                Some(c) => Ok(c),
                None => Err(strum::ParseError::VariantNotFound),
            }),
    {
        LapceWorkbenchCommand::from_str(s)
    }
}

impl<'a> TryFrom<&'a str> for LapceWorkbenchCommand {
    type Error = strum::ParseError;

    /// The command whose name is `s`.
    fn try_from(s: &'a str) -> Result<Self, strum::ParseError> {
        LapceWorkbenchCommand::from_str(s)
    }
}

impl<'a> vstd::std_specs::convert::TryFromSpecImpl<&'a str> for LapceWorkbenchCommand {
    open spec fn obeys_try_from_spec() -> bool {
        true
    }

    open spec fn try_from_spec(s: &'a str) -> Result<Self, strum::ParseError> {
        match Self::parse_name(s@) {
            Some(c) => Ok(c),
            None => Err(strum::ParseError::VariantNotFound),
        }
    }
}

impl From<LapceWorkbenchCommand> for &'static str {
    /// The name of the command.
    fn from(c: LapceWorkbenchCommand) -> (r: &'static str) {
        c.to_str()
    }
}

impl vstd::std_specs::convert::FromSpecImpl<LapceWorkbenchCommand> for &'static str {
    open spec fn obeys_from_spec() -> bool {
        true
    }

    open spec fn from_spec(c: LapceWorkbenchCommand) -> &'static str {
        c.static_name()
    }
}

impl<'a> From<&'a LapceWorkbenchCommand> for &'static str {
    /// The name of the command.
    fn from(c: &'a LapceWorkbenchCommand) -> (r: &'static str) {
        c.to_str()
    }
}

impl<'a> vstd::std_specs::convert::FromSpecImpl<&'a LapceWorkbenchCommand> for &'static str {
    open spec fn obeys_from_spec() -> bool {
        true
    }

    open spec fn from_spec(c: &'a LapceWorkbenchCommand) -> &'static str {
        c.static_name()
    }
}

/// The name of each workbench command, as declared.
pub proof fn lemma_workbench_names()
    ensures
        LapceWorkbenchCommand::EnableModal.name() == "enable_modal_editing"@,
        LapceWorkbenchCommand::DisableModal.name() == "disable_modal_editing"@,
        LapceWorkbenchCommand::OpenFolder.name() == "open_folder"@,
        LapceWorkbenchCommand::CloseFolder.name() == "close_folder"@,
        LapceWorkbenchCommand::OpenFile.name() == "open_file"@,
        LapceWorkbenchCommand::ChangeTheme.name() == "change_theme"@,
        LapceWorkbenchCommand::OpenSettings.name() == "open_settings"@,
        LapceWorkbenchCommand::OpenSettingsFile.name() == "open_settings_file"@,
        LapceWorkbenchCommand::OpenKeyboardShortcuts.name() == "open_keyboard_shortcuts"@,
        LapceWorkbenchCommand::OpenKeyboardShortcutsFile.name() == "open_keyboard_shortcuts_file"@,
        LapceWorkbenchCommand::OpenLogFile.name() == "open_log_file"@,
        LapceWorkbenchCommand::CloseWindowTab.name() == "close_window_tab"@,
        LapceWorkbenchCommand::NewWindowTab.name() == "new_window_tab"@,
        LapceWorkbenchCommand::NextWindowTab.name() == "next_window_tab"@,
        LapceWorkbenchCommand::PreviousWindowTab.name() == "previous_window_tab"@,
        LapceWorkbenchCommand::ReloadWindow.name() == "reload_window"@,
        LapceWorkbenchCommand::NewWindow.name() == "new_window"@,
        LapceWorkbenchCommand::NewFile.name() == "new_file"@,
        LapceWorkbenchCommand::ConnectSshHost.name() == "connect_ssh_host"@,
        LapceWorkbenchCommand::ConnectWsl.name() == "connect_wsl"@,
        LapceWorkbenchCommand::DisconnectRemote.name() == "disconnect_remote"@,
        LapceWorkbenchCommand::PaletteLine.name() == "palette.line"@,
        LapceWorkbenchCommand::Palette.name() == "palette"@,
        LapceWorkbenchCommand::PaletteSymbol.name() == "palette.symbol"@,
        LapceWorkbenchCommand::PaletteCommand.name() == "palette.command"@,
        LapceWorkbenchCommand::PaletteWorkspace.name() == "palette.workspace"@,
        LapceWorkbenchCommand::CheckoutBranch.name() == "source_control.checkout_branch"@,
        LapceWorkbenchCommand::ToggleMaximizedPanel.name() == "toggle_maximized_panel"@,
        LapceWorkbenchCommand::HidePanel.name() == "hide_panel"@,
        LapceWorkbenchCommand::ShowPanel.name() == "show_panel"@,
        LapceWorkbenchCommand::TogglePanelFocus.name() == "toggle_panel_focus"@,
        LapceWorkbenchCommand::TogglePanelVisual.name() == "toggle_panel_visual"@,
        LapceWorkbenchCommand::ToggleTerminalFocus.name() == "toggle_terminal_focus"@,
        LapceWorkbenchCommand::ToggleSourceControlFocus.name() == "toggle_source_control_focus"@,
        LapceWorkbenchCommand::TogglePluginFocus.name() == "toggle_plugin_focus"@,
        LapceWorkbenchCommand::ToggleFileExplorerFocus.name() == "toggle_file_explorer_focus"@,
        LapceWorkbenchCommand::ToggleProblemFocus.name() == "toggle_problem_focus"@,
        LapceWorkbenchCommand::ToggleSearchFocus.name() == "toggle_search_focus"@,
        LapceWorkbenchCommand::ToggleTerminalVisual.name() == "toggle_terminal_visual"@,
        LapceWorkbenchCommand::ToggleSourceControlVisual.name() == "toggle_source_control_visual"@,
        LapceWorkbenchCommand::TogglePluginVisual.name() == "toggle_plugin_visual"@,
        LapceWorkbenchCommand::ToggleFileExplorerVisual.name() == "toggle_file_explorer_visual"@,
        LapceWorkbenchCommand::ToggleProblemVisual.name() == "toggle_problem_visual"@,
        LapceWorkbenchCommand::ToggleSearchVisual.name() == "toggle_search_visual"@,
        LapceWorkbenchCommand::FocusEditor.name() == "focus_editor"@,
        LapceWorkbenchCommand::FocusTerminal.name() == "focus_terminal"@,
        LapceWorkbenchCommand::SourceControlCommit.name() == "source_control_commit"@,
        LapceWorkbenchCommand::ExportCurrentThemeSettings.name() == "export_current_theme_settings"@,
        LapceWorkbenchCommand::InstallTheme.name() == "install_theme"@,
{
}

/// The short description of each workbench command, as declared; the
/// commands declared without one have none.
pub proof fn lemma_workbench_messages()
    ensures
        LapceWorkbenchCommand::EnableModal.message() == Some("modal編集の有効化"@),
        LapceWorkbenchCommand::DisableModal.message() == Some("modal編集の無効化"@),
        LapceWorkbenchCommand::OpenFolder.message() == Some("folderを開く"@),
        LapceWorkbenchCommand::CloseFolder.message() == Some("folderを閉じる"@),
        LapceWorkbenchCommand::OpenFile.message() == Some("fileを開く"@),
        LapceWorkbenchCommand::ChangeTheme.message() == Some("themeの変更"@),
        LapceWorkbenchCommand::OpenSettings.message() == Some("設定を開く"@),
        LapceWorkbenchCommand::OpenSettingsFile.message() == Some("設定fileを開く"@),
        LapceWorkbenchCommand::OpenKeyboardShortcuts.message() == Some("keyboad shortcutを開く"@),
        LapceWorkbenchCommand::OpenKeyboardShortcutsFile.message() == Some("keyboad shortcutのfileを開く"@),
        LapceWorkbenchCommand::OpenLogFile.message() == Some("log fileを開く"@),
        LapceWorkbenchCommand::CloseWindowTab.message() == Some("現在のWindow Tabを閉じる"@),
        LapceWorkbenchCommand::NewWindowTab.message() == Some("新しいWindow Tabを作成する"@),
        LapceWorkbenchCommand::NextWindowTab.message() == Some("次のWindow Tabへ"@),
        LapceWorkbenchCommand::PreviousWindowTab.message() == Some("前のWindow Tabへ"@),
        LapceWorkbenchCommand::ReloadWindow.message() == Some("windowの再読み込み"@),
        LapceWorkbenchCommand::NewWindow.message() == Some("新規window"@),
        LapceWorkbenchCommand::NewFile.message() == Some("新規file"@),
        LapceWorkbenchCommand::ConnectSshHost.message() == Some("SSH hostに接続"@),
        LapceWorkbenchCommand::ConnectWsl.message() == Some("WSLに接続"@),
        LapceWorkbenchCommand::DisconnectRemote.message() == Some("remote接続を切断"@),
        LapceWorkbenchCommand::PaletteLine.message() is None,
        LapceWorkbenchCommand::Palette.message() == Some("fileへ移動"@),
        LapceWorkbenchCommand::PaletteSymbol.message() is None,
        LapceWorkbenchCommand::PaletteCommand.message() == Some("command palette"@),
        LapceWorkbenchCommand::PaletteWorkspace.message() == Some("最近のworkspaceを開く"@),
        LapceWorkbenchCommand::CheckoutBranch.message() is None,
        LapceWorkbenchCommand::ToggleMaximizedPanel.message() is None,
        LapceWorkbenchCommand::HidePanel.message() is None,
        LapceWorkbenchCommand::ShowPanel.message() is None,
        LapceWorkbenchCommand::TogglePanelFocus.message() is None,
        LapceWorkbenchCommand::TogglePanelVisual.message() is None,
        LapceWorkbenchCommand::ToggleTerminalFocus.message() == Some("Toggle Terminal Focus"@),
        LapceWorkbenchCommand::ToggleSourceControlFocus.message() is None,
        LapceWorkbenchCommand::TogglePluginFocus.message() == Some("pluginのfocus切り替え"@),
        LapceWorkbenchCommand::ToggleFileExplorerFocus.message() == Some("file explorerのfocus切り替え"@),
        LapceWorkbenchCommand::ToggleProblemFocus.message() == Some("ploblemのfocus切り替え"@),
        LapceWorkbenchCommand::ToggleSearchFocus.message() == Some("searchのfocus切り替え"@),
        LapceWorkbenchCommand::ToggleTerminalVisual.message() is None,
        LapceWorkbenchCommand::ToggleSourceControlVisual.message() is None,
        LapceWorkbenchCommand::TogglePluginVisual.message() is None,
        LapceWorkbenchCommand::ToggleFileExplorerVisual.message() is None,
        LapceWorkbenchCommand::ToggleProblemVisual.message() is None,
        LapceWorkbenchCommand::ToggleSearchVisual.message() is None,
        LapceWorkbenchCommand::FocusEditor.message() is None,
        LapceWorkbenchCommand::FocusTerminal.message() is None,
        LapceWorkbenchCommand::SourceControlCommit.message() is None,
        LapceWorkbenchCommand::ExportCurrentThemeSettings.message() == Some("current settingsをtheme fileにexport"@),
        LapceWorkbenchCommand::InstallTheme.message() == Some("current theme fileをinstall"@),
{
}

/// No two workbench commands share a short description.
pub proof fn lemma_messages_distinct(a: LapceWorkbenchCommand, b: LapceWorkbenchCommand)
    requires
        a.message() is Some,
        a.message() == b.message(),
    ensures
        a == b,
{
    // the length and the characters at a few positions tell every two descriptions apart
    reveal_strlit("modal編集の有効化");
    assert("modal編集の有効化"@.len() == 11
        && "modal編集の有効化"@[0] == 'm'
        && "modal編集の有効化"@[4] == 'l'
        && "modal編集の有効化"@[8] == '有');
    reveal_strlit("modal編集の無効化");
    assert("modal編集の無効化"@.len() == 11
        && "modal編集の無効化"@[0] == 'm'
        && "modal編集の無効化"@[4] == 'l'
        && "modal編集の無効化"@[8] == '無');
    reveal_strlit("folderを開く");
    assert("folderを開く"@.len() == 9
        && "folderを開く"@[0] == 'f'
        && "folderを開く"@[4] == 'e'
        && "folderを開く"@[8] == 'く');
    reveal_strlit("folderを閉じる");
    assert("folderを閉じる"@.len() == 10
        && "folderを閉じる"@[0] == 'f'
        && "folderを閉じる"@[4] == 'e'
        && "folderを閉じる"@[8] == 'じ');
    reveal_strlit("fileを開く");
    assert("fileを開く"@.len() == 7
        && "fileを開く"@[0] == 'f'
        && "fileを開く"@[4] == 'を');
    reveal_strlit("themeの変更");
    assert("themeの変更"@.len() == 8
        && "themeの変更"@[0] == 't'
        && "themeの変更"@[4] == 'e');
    reveal_strlit("設定を開く");
    assert("設定を開く"@.len() == 5
        && "設定を開く"@[0] == '設'
        && "設定を開く"@[4] == 'く');
    reveal_strlit("設定fileを開く");
    assert("設定fileを開く"@.len() == 9
        && "設定fileを開く"@[0] == '設'
        && "設定fileを開く"@[4] == 'l'
        && "設定fileを開く"@[8] == 'く');
    reveal_strlit("keyboad shortcutを開く");
    assert("keyboad shortcutを開く"@.len() == 19
        && "keyboad shortcutを開く"@[0] == 'k'
        && "keyboad shortcutを開く"@[4] == 'o'
        && "keyboad shortcutを開く"@[8] == 's');
    reveal_strlit("keyboad shortcutのfileを開く");
    assert("keyboad shortcutのfileを開く"@.len() == 24
        && "keyboad shortcutのfileを開く"@[0] == 'k'
        && "keyboad shortcutのfileを開く"@[4] == 'o'
        && "keyboad shortcutのfileを開く"@[8] == 's');
    reveal_strlit("log fileを開く");
    assert("log fileを開く"@.len() == 11
        && "log fileを開く"@[0] == 'l'
        && "log fileを開く"@[4] == 'f'
        && "log fileを開く"@[8] == 'を');
    reveal_strlit("現在のWindow Tabを閉じる");
    assert("現在のWindow Tabを閉じる"@.len() == 17
        && "現在のWindow Tabを閉じる"@[0] == '現'
        && "現在のWindow Tabを閉じる"@[4] == 'i'
        && "現在のWindow Tabを閉じる"@[8] == 'w');
    reveal_strlit("新しいWindow Tabを作成する");
    assert("新しいWindow Tabを作成する"@.len() == 18
        && "新しいWindow Tabを作成する"@[0] == '新'
        && "新しいWindow Tabを作成する"@[4] == 'i'
        && "新しいWindow Tabを作成する"@[8] == 'w');
    reveal_strlit("次のWindow Tabへ");
    assert("次のWindow Tabへ"@.len() == 13
        && "次のWindow Tabへ"@[0] == '次'
        && "次のWindow Tabへ"@[4] == 'n'
        && "次のWindow Tabへ"@[8] == ' ');
    reveal_strlit("前のWindow Tabへ");
    assert("前のWindow Tabへ"@.len() == 13
        && "前のWindow Tabへ"@[0] == '前'
        && "前のWindow Tabへ"@[4] == 'n'
        && "前のWindow Tabへ"@[8] == ' ');
    reveal_strlit("windowの再読み込み");
    assert("windowの再読み込み"@.len() == 12
        && "windowの再読み込み"@[0] == 'w'
        && "windowの再読み込み"@[4] == 'o'
        && "windowの再読み込み"@[8] == '読');
    reveal_strlit("新規window");
    assert("新規window"@.len() == 8
        && "新規window"@[0] == '新'
        && "新規window"@[4] == 'n');
    reveal_strlit("新規file");
    assert("新規file"@.len() == 6
        && "新規file"@[0] == '新'
        && "新規file"@[4] == 'l');
    reveal_strlit("SSH hostに接続");
    assert("SSH hostに接続"@.len() == 11
        && "SSH hostに接続"@[0] == 'S'
        && "SSH hostに接続"@[4] == 'h'
        && "SSH hostに接続"@[8] == 'に');
    reveal_strlit("WSLに接続");
    assert("WSLに接続"@.len() == 6
        && "WSLに接続"@[0] == 'W'
        && "WSLに接続"@[4] == '接');
    reveal_strlit("remote接続を切断");
    assert("remote接続を切断"@.len() == 11
        && "remote接続を切断"@[0] == 'r'
        && "remote接続を切断"@[4] == 't'
        && "remote接続を切断"@[8] == 'を');
    reveal_strlit("fileへ移動");
    assert("fileへ移動"@.len() == 7
        && "fileへ移動"@[0] == 'f'
        && "fileへ移動"@[4] == 'へ');
    reveal_strlit("command palette");
    assert("command palette"@.len() == 15
        && "command palette"@[0] == 'c'
        && "command palette"@[4] == 'a'
        && "command palette"@[8] == 'p');
    reveal_strlit("最近のworkspaceを開く");
    assert("最近のworkspaceを開く"@.len() == 15
        && "最近のworkspaceを開く"@[0] == '最'
        && "最近のworkspaceを開く"@[4] == 'o'
        && "最近のworkspaceを開く"@[8] == 'p');
    reveal_strlit("Toggle Terminal Focus");
    assert("Toggle Terminal Focus"@.len() == 21
        && "Toggle Terminal Focus"@[0] == 'T'
        && "Toggle Terminal Focus"@[4] == 'l'
        && "Toggle Terminal Focus"@[8] == 'e');
    reveal_strlit("pluginのfocus切り替え");
    assert("pluginのfocus切り替え"@.len() == 16
        && "pluginのfocus切り替え"@[0] == 'p'
        && "pluginのfocus切り替え"@[4] == 'i'
        && "pluginのfocus切り替え"@[8] == 'o');
    reveal_strlit("file explorerのfocus切り替え");
    assert("file explorerのfocus切り替え"@.len() == 23
        && "file explorerのfocus切り替え"@[0] == 'f'
        && "file explorerのfocus切り替え"@[4] == ' '
        && "file explorerのfocus切り替え"@[8] == 'l');
    reveal_strlit("ploblemのfocus切り替え");
    assert("ploblemのfocus切り替え"@.len() == 17
        && "ploblemのfocus切り替え"@[0] == 'p'
        && "ploblemのfocus切り替え"@[4] == 'l'
        && "ploblemのfocus切り替え"@[8] == 'f');
    reveal_strlit("searchのfocus切り替え");
    assert("searchのfocus切り替え"@.len() == 16
        && "searchのfocus切り替え"@[0] == 's'
        && "searchのfocus切り替え"@[4] == 'c'
        && "searchのfocus切り替え"@[8] == 'o');
    reveal_strlit("current settingsをtheme fileにexport");
    assert("current settingsをtheme fileにexport"@.len() == 34
        && "current settingsをtheme fileにexport"@[0] == 'c'
        && "current settingsをtheme fileにexport"@[4] == 'e'
        && "current settingsをtheme fileにexport"@[8] == 's');
    reveal_strlit("current theme fileをinstall");
    assert("current theme fileをinstall"@.len() == 26
        && "current theme fileをinstall"@[0] == 'c'
        && "current theme fileをinstall"@[4] == 'e'
        && "current theme fileをinstall"@[8] == 't');
}

/// Only the two panel toggles are documented, both with the same text.
pub proof fn lemma_workbench_documentation(c: LapceWorkbenchCommand)
    ensures
        c.documentation() is Some <==> (c == LapceWorkbenchCommand::TogglePanelFocus || c
            == LapceWorkbenchCommand::TogglePanelVisual),
        c.documentation() is Some ==> c.documentation() == Some(
            "Toggles the panel passed in parameter."@,
        ),
{
}

/// No two workbench commands share a name.
proof fn lemma_name_injective()
    ensures
        forall|a: LapceWorkbenchCommand, b: LapceWorkbenchCommand| a.name() == b.name() ==> a == b,
{
    // the length and the characters at a few positions tell every two names apart
    reveal_strlit("enable_modal_editing");
    assert("enable_modal_editing"@.len() == 20
        && "enable_modal_editing"@[0] == 'e'
        && "enable_modal_editing"@[1] == 'n'
        && "enable_modal_editing"@[5] == 'e'
        && "enable_modal_editing"@[7] == 'm'
        && "enable_modal_editing"@[8] == 'o');
    reveal_strlit("disable_modal_editing");
    assert("disable_modal_editing"@.len() == 21
        && "disable_modal_editing"@[0] == 'd'
        && "disable_modal_editing"@[1] == 'i'
        && "disable_modal_editing"@[5] == 'l'
        && "disable_modal_editing"@[7] == '_'
        && "disable_modal_editing"@[8] == 'm');
    reveal_strlit("open_folder");
    assert("open_folder"@.len() == 11
        && "open_folder"@[0] == 'o'
        && "open_folder"@[1] == 'p'
        && "open_folder"@[5] == 'f'
        && "open_folder"@[7] == 'l'
        && "open_folder"@[8] == 'd');
    reveal_strlit("close_folder");
    assert("close_folder"@.len() == 12
        && "close_folder"@[0] == 'c'
        && "close_folder"@[1] == 'l'
        && "close_folder"@[5] == '_'
        && "close_folder"@[7] == 'o'
        && "close_folder"@[8] == 'l');
    reveal_strlit("open_file");
    assert("open_file"@.len() == 9
        && "open_file"@[0] == 'o'
        && "open_file"@[1] == 'p'
        && "open_file"@[5] == 'f'
        && "open_file"@[7] == 'l'
        && "open_file"@[8] == 'e');
    reveal_strlit("change_theme");
    assert("change_theme"@.len() == 12
        && "change_theme"@[0] == 'c'
        && "change_theme"@[1] == 'h'
        && "change_theme"@[5] == 'e'
        && "change_theme"@[7] == 't'
        && "change_theme"@[8] == 'h');
    reveal_strlit("open_settings");
    assert("open_settings"@.len() == 13
        && "open_settings"@[0] == 'o'
        && "open_settings"@[1] == 'p'
        && "open_settings"@[5] == 's'
        && "open_settings"@[7] == 't'
        && "open_settings"@[8] == 't');
    reveal_strlit("open_settings_file");
    assert("open_settings_file"@.len() == 18
        && "open_settings_file"@[0] == 'o'
        && "open_settings_file"@[1] == 'p'
        && "open_settings_file"@[5] == 's'
        && "open_settings_file"@[7] == 't'
        && "open_settings_file"@[8] == 't');
    reveal_strlit("open_keyboard_shortcuts");
    assert("open_keyboard_shortcuts"@.len() == 23
        && "open_keyboard_shortcuts"@[0] == 'o'
        && "open_keyboard_shortcuts"@[1] == 'p'
        && "open_keyboard_shortcuts"@[5] == 'k'
        && "open_keyboard_shortcuts"@[7] == 'y'
        && "open_keyboard_shortcuts"@[8] == 'b');
    reveal_strlit("open_keyboard_shortcuts_file");
    assert("open_keyboard_shortcuts_file"@.len() == 28
        && "open_keyboard_shortcuts_file"@[0] == 'o'
        && "open_keyboard_shortcuts_file"@[1] == 'p'
        && "open_keyboard_shortcuts_file"@[5] == 'k'
        && "open_keyboard_shortcuts_file"@[7] == 'y'
        && "open_keyboard_shortcuts_file"@[8] == 'b');
    reveal_strlit("open_log_file");
    assert("open_log_file"@.len() == 13
        && "open_log_file"@[0] == 'o'
        && "open_log_file"@[1] == 'p'
        && "open_log_file"@[5] == 'l'
        && "open_log_file"@[7] == 'g'
        && "open_log_file"@[8] == '_');
    reveal_strlit("close_window_tab");
    assert("close_window_tab"@.len() == 16
        && "close_window_tab"@[0] == 'c'
        && "close_window_tab"@[1] == 'l'
        && "close_window_tab"@[5] == '_'
        && "close_window_tab"@[7] == 'i'
        && "close_window_tab"@[8] == 'n');
    reveal_strlit("new_window_tab");
    assert("new_window_tab"@.len() == 14
        && "new_window_tab"@[0] == 'n'
        && "new_window_tab"@[1] == 'e'
        && "new_window_tab"@[5] == 'i'
        && "new_window_tab"@[7] == 'd'
        && "new_window_tab"@[8] == 'o');
    reveal_strlit("next_window_tab");
    assert("next_window_tab"@.len() == 15
        && "next_window_tab"@[0] == 'n'
        && "next_window_tab"@[1] == 'e'
        && "next_window_tab"@[5] == 'w'
        && "next_window_tab"@[7] == 'n'
        && "next_window_tab"@[8] == 'd');
    reveal_strlit("previous_window_tab");
    assert("previous_window_tab"@.len() == 19
        && "previous_window_tab"@[0] == 'p'
        && "previous_window_tab"@[1] == 'r'
        && "previous_window_tab"@[5] == 'o'
        && "previous_window_tab"@[7] == 's'
        && "previous_window_tab"@[8] == '_');
    reveal_strlit("reload_window");
    assert("reload_window"@.len() == 13
        && "reload_window"@[0] == 'r'
        && "reload_window"@[1] == 'e'
        && "reload_window"@[5] == 'd'
        && "reload_window"@[7] == 'w'
        && "reload_window"@[8] == 'i');
    reveal_strlit("new_window");
    assert("new_window"@.len() == 10
        && "new_window"@[0] == 'n'
        && "new_window"@[1] == 'e'
        && "new_window"@[5] == 'i'
        && "new_window"@[7] == 'd'
        && "new_window"@[8] == 'o');
    reveal_strlit("new_file");
    assert("new_file"@.len() == 8
        && "new_file"@[0] == 'n'
        && "new_file"@[1] == 'e'
        && "new_file"@[5] == 'i'
        && "new_file"@[7] == 'e');
    reveal_strlit("connect_ssh_host");
    assert("connect_ssh_host"@.len() == 16
        && "connect_ssh_host"@[0] == 'c'
        && "connect_ssh_host"@[1] == 'o'
        && "connect_ssh_host"@[5] == 'c'
        && "connect_ssh_host"@[7] == '_'
        && "connect_ssh_host"@[8] == 's');
    reveal_strlit("connect_wsl");
    assert("connect_wsl"@.len() == 11
        && "connect_wsl"@[0] == 'c'
        && "connect_wsl"@[1] == 'o'
        && "connect_wsl"@[5] == 'c'
        && "connect_wsl"@[7] == '_'
        && "connect_wsl"@[8] == 'w');
    reveal_strlit("disconnect_remote");
    assert("disconnect_remote"@.len() == 17
        && "disconnect_remote"@[0] == 'd'
        && "disconnect_remote"@[1] == 'i'
        && "disconnect_remote"@[5] == 'n'
        && "disconnect_remote"@[7] == 'e'
        && "disconnect_remote"@[8] == 'c');
    reveal_strlit("palette.line");
    assert("palette.line"@.len() == 12
        && "palette.line"@[0] == 'p'
        && "palette.line"@[1] == 'a'
        && "palette.line"@[5] == 't'
        && "palette.line"@[7] == '.'
        && "palette.line"@[8] == 'l');
    reveal_strlit("palette");
    assert("palette"@.len() == 7
        && "palette"@[0] == 'p'
        && "palette"@[1] == 'a'
        && "palette"@[5] == 't');
    reveal_strlit("palette.symbol");
    assert("palette.symbol"@.len() == 14
        && "palette.symbol"@[0] == 'p'
        && "palette.symbol"@[1] == 'a'
        && "palette.symbol"@[5] == 't'
        && "palette.symbol"@[7] == '.'
        && "palette.symbol"@[8] == 's');
    reveal_strlit("palette.command");
    assert("palette.command"@.len() == 15
        && "palette.command"@[0] == 'p'
        && "palette.command"@[1] == 'a'
        && "palette.command"@[5] == 't'
        && "palette.command"@[7] == '.'
        && "palette.command"@[8] == 'c');
    reveal_strlit("palette.workspace");
    assert("palette.workspace"@.len() == 17
        && "palette.workspace"@[0] == 'p'
        && "palette.workspace"@[1] == 'a'
        && "palette.workspace"@[5] == 't'
        && "palette.workspace"@[7] == '.'
        && "palette.workspace"@[8] == 'w');
    reveal_strlit("source_control.checkout_branch");
    assert("source_control.checkout_branch"@.len() == 30
        && "source_control.checkout_branch"@[0] == 's'
        && "source_control.checkout_branch"@[1] == 'o'
        && "source_control.checkout_branch"@[5] == 'e'
        && "source_control.checkout_branch"@[7] == 'c'
        && "source_control.checkout_branch"@[8] == 'o');
    reveal_strlit("toggle_maximized_panel");
    assert("toggle_maximized_panel"@.len() == 22
        && "toggle_maximized_panel"@[0] == 't'
        && "toggle_maximized_panel"@[1] == 'o'
        && "toggle_maximized_panel"@[5] == 'e'
        && "toggle_maximized_panel"@[7] == 'm'
        && "toggle_maximized_panel"@[8] == 'a');
    reveal_strlit("hide_panel");
    assert("hide_panel"@.len() == 10
        && "hide_panel"@[0] == 'h'
        && "hide_panel"@[1] == 'i'
        && "hide_panel"@[5] == 'p'
        && "hide_panel"@[7] == 'n'
        && "hide_panel"@[8] == 'e');
    reveal_strlit("show_panel");
    assert("show_panel"@.len() == 10
        && "show_panel"@[0] == 's'
        && "show_panel"@[1] == 'h'
        && "show_panel"@[5] == 'p'
        && "show_panel"@[7] == 'n'
        && "show_panel"@[8] == 'e');
    reveal_strlit("toggle_panel_focus");
    assert("toggle_panel_focus"@.len() == 18
        && "toggle_panel_focus"@[0] == 't'
        && "toggle_panel_focus"@[1] == 'o'
        && "toggle_panel_focus"@[5] == 'e'
        && "toggle_panel_focus"@[7] == 'p'
        && "toggle_panel_focus"@[8] == 'a');
    reveal_strlit("toggle_panel_visual");
    assert("toggle_panel_visual"@.len() == 19
        && "toggle_panel_visual"@[0] == 't'
        && "toggle_panel_visual"@[1] == 'o'
        && "toggle_panel_visual"@[5] == 'e'
        && "toggle_panel_visual"@[7] == 'p'
        && "toggle_panel_visual"@[8] == 'a');
    reveal_strlit("toggle_terminal_focus");
    assert("toggle_terminal_focus"@.len() == 21
        && "toggle_terminal_focus"@[0] == 't'
        && "toggle_terminal_focus"@[1] == 'o'
        && "toggle_terminal_focus"@[5] == 'e'
        && "toggle_terminal_focus"@[7] == 't'
        && "toggle_terminal_focus"@[8] == 'e');
    reveal_strlit("toggle_source_control_focus");
    assert("toggle_source_control_focus"@.len() == 27
        && "toggle_source_control_focus"@[0] == 't'
        && "toggle_source_control_focus"@[1] == 'o'
        && "toggle_source_control_focus"@[5] == 'e'
        && "toggle_source_control_focus"@[7] == 's'
        && "toggle_source_control_focus"@[8] == 'o');
    reveal_strlit("toggle_plugin_focus");
    assert("toggle_plugin_focus"@.len() == 19
        && "toggle_plugin_focus"@[0] == 't'
        && "toggle_plugin_focus"@[1] == 'o'
        && "toggle_plugin_focus"@[5] == 'e'
        && "toggle_plugin_focus"@[7] == 'p'
        && "toggle_plugin_focus"@[8] == 'l');
    reveal_strlit("toggle_file_explorer_focus");
    assert("toggle_file_explorer_focus"@.len() == 26
        && "toggle_file_explorer_focus"@[0] == 't'
        && "toggle_file_explorer_focus"@[1] == 'o'
        && "toggle_file_explorer_focus"@[5] == 'e'
        && "toggle_file_explorer_focus"@[7] == 'f'
        && "toggle_file_explorer_focus"@[8] == 'i');
    reveal_strlit("toggle_problem_focus");
    assert("toggle_problem_focus"@.len() == 20
        && "toggle_problem_focus"@[0] == 't'
        && "toggle_problem_focus"@[1] == 'o'
        && "toggle_problem_focus"@[5] == 'e'
        && "toggle_problem_focus"@[7] == 'p'
        && "toggle_problem_focus"@[8] == 'r');
    reveal_strlit("toggle_search_focus");
    assert("toggle_search_focus"@.len() == 19
        && "toggle_search_focus"@[0] == 't'
        && "toggle_search_focus"@[1] == 'o'
        && "toggle_search_focus"@[5] == 'e'
        && "toggle_search_focus"@[7] == 's'
        && "toggle_search_focus"@[8] == 'e');
    reveal_strlit("toggle_terminal_visual");
    assert("toggle_terminal_visual"@.len() == 22
        && "toggle_terminal_visual"@[0] == 't'
        && "toggle_terminal_visual"@[1] == 'o'
        && "toggle_terminal_visual"@[5] == 'e'
        && "toggle_terminal_visual"@[7] == 't'
        && "toggle_terminal_visual"@[8] == 'e');
    reveal_strlit("toggle_source_control_visual");
    assert("toggle_source_control_visual"@.len() == 28
        && "toggle_source_control_visual"@[0] == 't'
        && "toggle_source_control_visual"@[1] == 'o'
        && "toggle_source_control_visual"@[5] == 'e'
        && "toggle_source_control_visual"@[7] == 's'
        && "toggle_source_control_visual"@[8] == 'o');
    reveal_strlit("toggle_plugin_visual");
    assert("toggle_plugin_visual"@.len() == 20
        && "toggle_plugin_visual"@[0] == 't'
        && "toggle_plugin_visual"@[1] == 'o'
        && "toggle_plugin_visual"@[5] == 'e'
        && "toggle_plugin_visual"@[7] == 'p'
        && "toggle_plugin_visual"@[8] == 'l');
    reveal_strlit("toggle_file_explorer_visual");
    assert("toggle_file_explorer_visual"@.len() == 27
        && "toggle_file_explorer_visual"@[0] == 't'
        && "toggle_file_explorer_visual"@[1] == 'o'
        && "toggle_file_explorer_visual"@[5] == 'e'
        && "toggle_file_explorer_visual"@[7] == 'f'
        && "toggle_file_explorer_visual"@[8] == 'i');
    reveal_strlit("toggle_problem_visual");
    assert("toggle_problem_visual"@.len() == 21
        && "toggle_problem_visual"@[0] == 't'
        && "toggle_problem_visual"@[1] == 'o'
        && "toggle_problem_visual"@[5] == 'e'
        && "toggle_problem_visual"@[7] == 'p'
        && "toggle_problem_visual"@[8] == 'r');
    reveal_strlit("toggle_search_visual");
    assert("toggle_search_visual"@.len() == 20
        && "toggle_search_visual"@[0] == 't'
        && "toggle_search_visual"@[1] == 'o'
        && "toggle_search_visual"@[5] == 'e'
        && "toggle_search_visual"@[7] == 's'
        && "toggle_search_visual"@[8] == 'e');
    reveal_strlit("focus_editor");
    assert("focus_editor"@.len() == 12
        && "focus_editor"@[0] == 'f'
        && "focus_editor"@[1] == 'o'
        && "focus_editor"@[5] == '_'
        && "focus_editor"@[7] == 'd'
        && "focus_editor"@[8] == 'i');
    reveal_strlit("focus_terminal");
    assert("focus_terminal"@.len() == 14
        && "focus_terminal"@[0] == 'f'
        && "focus_terminal"@[1] == 'o'
        && "focus_terminal"@[5] == '_'
        && "focus_terminal"@[7] == 'e'
        && "focus_terminal"@[8] == 'r');
    reveal_strlit("source_control_commit");
    assert("source_control_commit"@.len() == 21
        && "source_control_commit"@[0] == 's'
        && "source_control_commit"@[1] == 'o'
        && "source_control_commit"@[5] == 'e'
        && "source_control_commit"@[7] == 'c'
        && "source_control_commit"@[8] == 'o');
    reveal_strlit("export_current_theme_settings");
    assert("export_current_theme_settings"@.len() == 29
        && "export_current_theme_settings"@[0] == 'e'
        && "export_current_theme_settings"@[1] == 'x'
        && "export_current_theme_settings"@[5] == 't'
        && "export_current_theme_settings"@[7] == 'c'
        && "export_current_theme_settings"@[8] == 'u');
    reveal_strlit("install_theme");
    assert("install_theme"@.len() == 13
        && "install_theme"@[0] == 'i'
        && "install_theme"@[1] == 'n'
        && "install_theme"@[5] == 'l'
        && "install_theme"@[7] == '_'
        && "install_theme"@[8] == 't');
}

/// Two workbench commands with the same name are the same command.
pub proof fn lemma_same_name_same_command(a: LapceWorkbenchCommand, b: LapceWorkbenchCommand)
    requires
        a.name() == b.name(),
    ensures
        a == b,
{
    lemma_name_injective();
}

/// Parsing the name of a workbench command gives that command back.
pub proof fn lemma_parse_name_of_name(c: LapceWorkbenchCommand)
    ensures
        LapceWorkbenchCommand::parse_name(c.name()) == Some(c),
{
    lemma_name_injective();
}

/// A parsed command carries the parsed name.
pub proof fn lemma_name_of_parse_name(s: Seq<char>)
    ensures
        LapceWorkbenchCommand::parse_name(s) matches Some(c) ==> c.name() == s,
        LapceWorkbenchCommand::parse_name(s) is None ==> forall|c: LapceWorkbenchCommand| c.name() != s,
{
}

/// The list of workbench commands holds every command, at its position in the
/// declaration.
pub proof fn lemma_all_commands_complete(c: LapceWorkbenchCommand)
    ensures
        0 <= c.ordinal() < all_workbench_commands().len(),
        all_workbench_commands()[c.ordinal()] == c,
{
}

/// The list of workbench commands holds no command twice.
pub proof fn lemma_all_commands_distinct()
    ensures
        all_workbench_commands().no_duplicates(),
{
    assert forall|i: int| 0 <= i < WORKBENCH_COMMAND_COUNT implies
        #[trigger] LapceWorkbenchCommand::from_ordinal(i).ordinal() == i by {
    }
}

} // verus!
