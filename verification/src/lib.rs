//! Hooks and in-process tool servers for agent runtimes.

pub mod claude;
pub mod json;
pub mod text;
