//! The file explorer plugin: merged-sidebar coordination and the session
//! loop around it, the sideways sliver label, the launcher decisions, the
//! explorer pane's input handling, and its file preview pane.

pub mod explorer;
pub mod launch;
pub mod session;
pub mod sidebar;
pub mod sideways;
pub mod viewer;
