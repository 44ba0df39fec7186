//! Command definitions of the Lapce editor: the workbench commands with their
//! names and descriptions, the kinds of commands, and the registry of every
//! internal command by name.

pub mod command;
