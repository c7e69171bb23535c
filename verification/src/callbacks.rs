//! Hooks that are told what a run does.

pub mod handler;

pub use handler::CallbackHandler;
