//! Quota tracking for the Codex app-server: a JSON value model, the snapshot
//! parser and notification merge, the app-server session protocol, and the
//! tray panel's status logic.

pub mod json;
pub mod clock;
pub mod limits;
pub mod session;
pub mod wire;
pub mod settings;
pub mod text;
pub mod panel;
pub mod layout;
