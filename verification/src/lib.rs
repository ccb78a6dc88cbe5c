//! Operation orchestration for mesh application projects: target resolution,
//! command construction, execution plans and their previews.

pub mod args;
pub mod bootstrap;
pub mod catalog;
pub mod command;
pub mod config;
pub mod deploy;
pub mod destroy;
pub mod discovery;
pub mod error;
pub mod generate;
pub mod install;
pub mod plan;
pub mod planner;
pub mod preview;
pub mod profile;
pub mod scaffold;
pub mod status;
pub mod text;
pub mod update;
pub mod validate;
