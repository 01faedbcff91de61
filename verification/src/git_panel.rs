//! The source control panel plugin: file-type icons, and the panel's rows,
//! message editing and commit rules.

pub mod icons;
pub mod panel;
