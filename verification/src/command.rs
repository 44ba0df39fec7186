use vstd::prelude::*;

mod registry;
mod text;
mod workbench;

pub use registry::{
    command_of, core_command_list, core_names_fresh, entry_value, internal_command_kinds,
    key_position, keys_distinct, laid_out_in_order, lemma_internal_commands_in_order,
    lapce_internal_commands, lemma_internal_commands_without_core,
    lemma_internal_workbench_command, lemma_registered_entries, lemma_registered_in_order,
    lemma_registered_keys_distinct, lemma_registered_last_wins, lemma_registered_names,
    map_entries, map_insert, registered, CoreCommands,
};
pub use text::opt_str_view;
pub use workbench::{
    all_workbench_commands, lemma_all_commands_complete, lemma_all_commands_distinct,
    lemma_messages_distinct, lemma_name_of_parse_name, lemma_parse_name_of_name,
    lemma_same_name_same_command, lemma_workbench_documentation, lemma_workbench_messages,
    lemma_workbench_names,
    LapceWorkbenchCommand, WORKBENCH_COMMAND_COUNT,
};

verus! {

/// `serde_json::Value`: the JSON argument that a command may carry.
#[verifier::external_type_specification]
#[verifier::external_body]
pub struct ExJsonValue(serde_json::Value);

/// A command of the editor core (editing, cursor motion, focus, motion mode,
/// multiple selections), held by what this library reads of it: the name under
/// which it is displayed and registered, and its short description.
#[derive(Clone, Copy, Debug)]
pub struct CoreCommand {
    pub name: &'static str,
    pub message: Option<&'static str>,
}

/// The kind of a command, with the command itself.
#[derive(Clone, Copy, Debug)]
pub enum CommandKind {
    Workbench(LapceWorkbenchCommand),
    Edit(CoreCommand),
    Move(CoreCommand),
    Focus(CoreCommand),
    MotionMode(CoreCommand),
    MultiSelection(CoreCommand),
}

impl CommandKind {
    /// The name of the command.
    pub open spec fn name(self) -> Seq<char> {
        match self {
            CommandKind::Workbench(c) => c.name(),
            CommandKind::Edit(c) => c.name@,
            CommandKind::Move(c) => c.name@,
            CommandKind::Focus(c) => c.name@,
            CommandKind::MotionMode(c) => c.name@,
            CommandKind::MultiSelection(c) => c.name@,
        }
    }

    /// The short description of the command, where it has one.
    pub open spec fn description(self) -> Option<Seq<char>> {
        match self {
            CommandKind::Workbench(c) => c.message(),
            CommandKind::Edit(c) => opt_str_view(c.message),
            CommandKind::Move(c) => opt_str_view(c.message),
            CommandKind::Focus(c) => opt_str_view(c.message),
            CommandKind::MotionMode(c) => opt_str_view(c.message),
            CommandKind::MultiSelection(c) => opt_str_view(c.message),
        }
    }

    /// The short description of the command, where it has one.
    pub fn desc(&self) -> (r: Option<&'static str>)
        ensures
            opt_str_view(r) == self.description(),
            *self matches CommandKind::Workbench(w) ==> opt_str_view(r) == w.message(),
            *self matches CommandKind::Edit(c) ==> r == c.message,
            *self matches CommandKind::Move(c) ==> r == c.message,
            *self matches CommandKind::Focus(c) ==> r == c.message,
            *self matches CommandKind::MotionMode(c) ==> r == c.message,
            *self matches CommandKind::MultiSelection(c) ==> r == c.message,
    {
        match self {
            CommandKind::Workbench(cmd) => cmd.get_message(),
            CommandKind::Edit(cmd) => cmd.message,
            CommandKind::Move(cmd) => cmd.message,
            CommandKind::Focus(cmd) => cmd.message,
            CommandKind::MotionMode(cmd) => cmd.message,
            CommandKind::MultiSelection(cmd) => cmd.message,
        }
    }

    /// The name of the command.
    pub fn str(&self) -> (r: &'static str)
        ensures
            r@ == self.name(),
            *self matches CommandKind::Workbench(w) ==> r@ == w.name(),
            *self matches CommandKind::Edit(c) ==> r == c.name,
            *self matches CommandKind::Move(c) ==> r == c.name,
            *self matches CommandKind::Focus(c) ==> r == c.name,
            *self matches CommandKind::MotionMode(c) ==> r == c.name,
            *self matches CommandKind::MultiSelection(c) ==> r == c.name,
    {
        match self {
            CommandKind::Workbench(cmd) => cmd.into(),
            CommandKind::Edit(cmd) => cmd.name,
            CommandKind::Move(cmd) => cmd.name,
            CommandKind::Focus(cmd) => cmd.name,
            CommandKind::MotionMode(cmd) => cmd.name,
            CommandKind::MultiSelection(cmd) => cmd.name,
        }
    }
}

/// A command to run, with the JSON argument it may carry.
#[derive(Clone, Debug)]
pub struct LapceCommand {
    pub kind: CommandKind,
    pub data: Option<serde_json::Value>,
}

impl LapceCommand {
    /// The name of the palette command.
    pub const PALETTE: &'static str = "palette";

    /// Whether the command is one that opens a palette: the file, line, symbol,
    /// command and workspace palettes, and the theme, SSH host and WSL pickers.
    pub open spec fn opens_palette(self) -> bool {
        self.kind matches CommandKind::Workbench(c) && (c == LapceWorkbenchCommand::Palette || c
            == LapceWorkbenchCommand::PaletteLine || c == LapceWorkbenchCommand::PaletteSymbol || c
            == LapceWorkbenchCommand::PaletteCommand || c == LapceWorkbenchCommand::ChangeTheme || c
            == LapceWorkbenchCommand::ConnectSshHost || c == LapceWorkbenchCommand::ConnectWsl || c
            == LapceWorkbenchCommand::PaletteWorkspace)
    }

    /// Whether the command is one that opens a palette.
    pub fn is_palette_command(&self) -> (r: bool)
        ensures
            r == self.opens_palette(),
    {
        if let CommandKind::Workbench(cmd) = &self.kind {
            match cmd {
                LapceWorkbenchCommand::Palette
                | LapceWorkbenchCommand::PaletteLine
                | LapceWorkbenchCommand::PaletteSymbol
                | LapceWorkbenchCommand::PaletteCommand
                | LapceWorkbenchCommand::ChangeTheme
                | LapceWorkbenchCommand::ConnectSshHost
                | LapceWorkbenchCommand::ConnectWsl
                | LapceWorkbenchCommand::PaletteWorkspace => return true,
                _ => {},
            }
        }
        false
    }
}

/// A command of any kind is described by the description of the command it
/// holds, and named by its name.
pub proof fn lemma_kind_describes_its_command(c: CoreCommand, w: LapceWorkbenchCommand)
    ensures
        CommandKind::Workbench(w).description() == w.message(),
        CommandKind::Edit(c).description() == opt_str_view(c.message),
        CommandKind::Move(c).description() == opt_str_view(c.message),
        CommandKind::Focus(c).description() == opt_str_view(c.message),
        CommandKind::MotionMode(c).description() == opt_str_view(c.message),
        CommandKind::MultiSelection(c).description() == opt_str_view(c.message),
        CommandKind::Workbench(w).name() == w.name(),
        CommandKind::Edit(c).name() == c.name@,
        CommandKind::Move(c).name() == c.name@,
        CommandKind::Focus(c).name() == c.name@,
        CommandKind::MotionMode(c).name() == c.name@,
        CommandKind::MultiSelection(c).name() == c.name@,
{
}

/// The name `LapceCommand::PALETTE` is the name of the palette command.
pub proof fn lemma_palette_name()
    ensures
        LapceCommand::PALETTE@ == LapceWorkbenchCommand::Palette.name(),
{
}

/// Whether a handler ran a command.
#[derive(PartialEq, Eq, Structural)]
pub enum CommandExecuted {
    Yes,
    No,
}

/// Where to bring the cursor when the view scrolls to make it visible.
#[derive(Debug)]
pub enum EnsureVisiblePosition {
    /// Move the view so the cursor line will be at the center of the window.
    /// If the cursor is near the beginning of the buffer, the view might not
    /// change.
    CenterOfWindow,
    /// Cursor will be at the top edge, down by a margin.
    TopOfWindow,
    /// Cursor will be at the bottom edge, up by a margin. If the cursor is near
    /// the beginning of the buffer, the view might not change.
    BottomOfWindow,
}

} // verus!
