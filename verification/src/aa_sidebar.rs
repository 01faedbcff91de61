//! The two-view sidebar binary: its persisted state, the UI vocabulary both
//! views share, the explorer view's and the source control view's input
//! handling, and the preview pane it steers.

pub mod state;
pub mod viewer;
pub mod ui;
pub mod explorer;
pub mod scm;
