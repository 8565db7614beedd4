//! The game state integration side: messages, request handlers and paths.
pub mod message;
pub mod middleware;
pub mod paths;
