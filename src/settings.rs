//! The configuration the tool runs with. It is read once at start-up and
//! handed to each stage unchanged.

use vstd::prelude::*;

verus! {

/// Who is told about a run, and through which mail server.
#[derive(Clone)]
pub struct Notify {
    pub error_address: Vec<String>,
    pub success_address: Vec<String>,
    pub smtp_host: String,
    pub smtp_user: String,
    pub smtp_pass: String,
    pub smtp_port: u16,
    pub smtp_from: String,
}

/// The remote store and how uploaded archives are named there.
#[derive(Clone)]
pub struct Ftp {
    pub host: String,
    pub port: u16,
    pub user: String,
    pub pass: String,
    pub path: String,
    pub backup_file_name: String,
    pub backup_suffix_format: String,
}

/// The commands run before a backup, in order.
#[derive(Clone)]
pub struct Run {
    pub commands: Vec<String>,
}

/// A directory tree to archive, and the prefix its entries get in the archive.
#[derive(Clone)]
pub struct Src {
    pub path: String,
    pub prefix: String,
}

/// The daily time, `HH:MM`, at which a scheduled backup runs.
#[derive(Clone)]
pub struct Schedule {
    pub time: String,
}

/// The whole configuration.
#[derive(Clone)]
pub struct Settings {
    pub run: Run,
    pub ftp: Ftp,
    pub src: Vec<Src>,
    pub notify: Notify,
    pub schedule: Option<Schedule>,
}

} // verus!
