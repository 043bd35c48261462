//! A declarative, idempotent system-configuration engine.
//!
//! A playbook is an ordered list of instructions. Each instruction guards
//! one action with environment checks and confirmation checks, so that
//! applying a playbook twice does no work twice.

pub mod actions;
pub mod checks;
pub mod dgraph;
pub mod dir_context;
pub mod instructions;
pub mod interfaces;
pub mod list_builder;
pub mod paths;
pub mod pattern;
pub mod playbook;
pub mod process;
pub mod search;
pub mod story_formatter;

pub use playbook::{instruction, Playbook};
