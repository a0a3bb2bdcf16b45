//! A backup tool: runs pre-backup commands, plans an archive of configured
//! directory trees, uploads it under a collision-free remote name and reports
//! the outcome. The decisions of each stage live here; the process, file and
//! network work around them is left to the caller.

pub mod archive;
pub mod args;
pub mod commands;
pub mod naming;
pub mod pipeline;
pub mod schedule;
pub mod settings;
pub mod text;
pub mod timer;
