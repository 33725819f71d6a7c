//! Validation, resize and relocation of disk partitions.

pub mod ai;
pub mod device;
pub mod discovery;
pub mod driver;
pub mod error;
pub mod json;
pub mod locks;
pub mod mcp;
pub mod mount;
pub mod move_driver;
pub mod move_orchestrator;
pub mod move_partition;
pub mod move_simple;
pub mod paths;
pub mod plan;
pub mod platform;
pub mod resize;
pub mod scanner;
pub mod strings;
pub mod system_tools;
pub mod text;
pub mod types;
