//! The unified sidebar plugin (both views in one binary): the context menu
//! model, the launcher's ensure decisions, the persisted settings and tree
//! state, the first-run font prompt, and the preview pane's routing.

pub mod actions;
pub mod state;
pub mod viewer;
pub mod ensure;
pub mod fontsetup;
