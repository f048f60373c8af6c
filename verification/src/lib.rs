//! Backend logic of a desktop mod manager: the path guard that keeps an
//! installation inside its per-application folder, the installation
//! planner, the single-slot client registry and the bridge that drives a
//! callback-based service client from an async task.

pub mod bridge;
pub mod error;
pub mod install;
pub mod path_guard;
pub mod registry;
pub mod text;
