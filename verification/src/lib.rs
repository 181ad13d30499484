//! Verified core of the local companion: reply cleaning, settings
//! resolution, request planning and small helpers used by the app.
pub mod text;
pub mod json;
pub mod reply;
pub mod settings;
pub mod encoding;
pub mod capture;
pub mod chat;
pub mod vision;
pub mod emotion;
pub mod speech;
pub mod laws;
