//! Avatar Studio core library: asset metadata, avatar slots and saves,
//! the undoable command layer, path resolution and export checks.

pub mod animation;
pub mod avatar;
pub mod builder;
pub mod catalog;
pub mod commands;
pub mod config;
pub mod desktop;
pub mod editor;
pub mod export;
pub mod expressions;
pub mod metadata;
pub mod overrides;
pub mod pathtext;
pub mod save;
pub mod selection;
pub mod paths;
pub mod perf;
pub mod qa;
pub mod runtime_checks;
pub mod skeleton;
pub mod slots;
pub mod text;
pub mod time;
