//! Verified core of an AI-assisted novel writing workspace.

pub mod agent;
pub mod agent_loop;
pub mod cancellation;
pub mod conversation;
pub mod coordinate;
pub mod gemini;
pub mod instructions;
pub mod listing;
pub mod router;
pub mod settings;
pub mod story;
pub mod stream;
pub mod text;
pub mod tools;
pub mod writing;
