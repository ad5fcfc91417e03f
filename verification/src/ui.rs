//! The interactive side of the client: screens, events and their handling.

pub mod app;
pub mod scene;
pub mod screens;
pub mod style;
