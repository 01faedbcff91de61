# herdr_plugins

The logic of the herdr sidebar plugins (a VS Code-style file explorer, a
source control panel, the unified sidebar that hosts both, and the preview
pane beside them), written in Verus and proved against its contracts.

- `src/` is the verified library. Each plugin has a module of its own
  (`filetree`, `git_panel`, `aa_sidebar`, `sidebar`); the modules at the top
  level are shared: pane listings (`panes`), the preview protocol
  (`preview`) and document handling (`docview`), tree navigation
  (`tree_nav`), menus, text and width helpers, and the JSON model the
  parsed documents are handed over in.
- `app/` is the command-line front end of the explorer: the launcher's
  stdin→stdout modes and the preview pane, which read herdr's JSON with
  serde and draw with ratatui and crossterm.
- `tests/` runs the library on the scenarios the plugins are known for.

The library takes parsed values and returns decisions: it never touches
the terminal, the file system or herdr's socket itself. The few calls into
std and ratatui it makes (display widths, lossy UTF-8 decoding, lower-case
mapping, the wall clock) sit behind small wrappers whose contracts say what
is assumed of them.
