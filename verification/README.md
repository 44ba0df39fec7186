# lapce-data commands

The command definitions of the Lapce editor, verified with Verus.

- `src/command/workbench.rs`: the workbench commands, their names,
  descriptions and documentation, parsing a name back into a command, and the
  list of every command in declaration order.
- `src/command.rs`: the kinds of commands (workbench and editor core), the
  command with its optional JSON argument, which commands open a palette.
- `src/command/registry.rs`: the registry of every internal command by name,
  kept in an `indexmap::IndexMap`, with the laws of its contents.
- `src/command/text.rs`: string comparison.

Commands of the editor core are given by their name and description
(`CoreCommand`), each kind as a list in declaration order (`CoreCommands`).
