//! A plugin runtime for composable automation components.
//!
//! A host process loads modules, each of which registers plugins; a plugin
//! describes a component type by its named config, state and action members.
//! Live components are driven only through a narrow, name-keyed interface:
//! configuration, initialization, action invocation, state reads and change
//! notifications, and a write-once failure latch.

pub mod definition;
pub mod errors;
pub mod failure;
pub mod metadata;
pub mod module;
pub mod runtime;
pub mod switch;
pub mod value;
pub mod value_binary;
