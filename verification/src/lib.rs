//! Verified core of the herdr sidebar plugins: the file explorer, the source
//! control panel, the unified sidebar that hosts both, and the preview pane.

pub mod clock;
pub mod docview;
pub mod icons;
pub mod json;
pub mod keys;
pub mod menu;
pub mod message;
pub mod panes;
pub mod preview;
pub mod seqs;
pub mod text;
pub mod tree_nav;
pub mod width;
pub mod aa_sidebar;
pub mod filetree;
pub mod git_panel;
pub mod sidebar;
