//! Turning what the tools of a platform report of its disks into snapshots.
//!
//! Running the tools is the caller's part. What is here reads their output.

pub mod linux;
pub mod macos;
pub mod windows;
