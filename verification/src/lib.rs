//! Thought Train: the verified core of a small note-taking application.

pub mod text;
pub mod thought;
pub mod categorize;
pub mod train;
pub mod view_model;
pub mod laws;
pub mod icon;
pub mod presentation_laws;
