//! In-place migration of a running host into an appliance image.
//!
//! The library holds the decisions of both migration stages: the block
//! topology and path resolution, the device profiles, the boot managers,
//! the hand-over record between the stages, and the step functions that
//! drive staging, flashing and failure handling. Every effect on the
//! machine is left to the caller, which performs the actions that the
//! step functions hand out and reports back what happened.

pub mod error;
pub mod text;
pub mod defs;
pub mod framing;
pub mod devices;
pub mod pattern;
pub mod drive_info;
pub mod path_info;
pub mod ensured_commands;
pub mod extract;
pub mod migrate_info;
pub mod linux_api;
pub mod stage2_config;
pub mod stage2_text;
pub mod boot_manager;
pub mod boot_files;
pub mod device_profile;
pub mod stage1;
pub mod planner;
pub mod stage2;

pub use crate::error::{MigError, MigErrorKind};
pub use crate::extract::extract;
pub use crate::stage1::migrate;
pub use crate::stage2::stage2;
