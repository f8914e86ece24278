//! Passive network traffic observation: frame translation, a bounded event
//! buffer with two release disciplines, and prompt construction for an
//! analysis backend.
pub mod text;
pub mod event;
pub mod translate;
pub mod aggregator;
pub mod prompt;
pub mod ollama;
pub mod session;
