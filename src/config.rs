use vstd::prelude::*;

use crate::server::Server;

verus! {

/// How much the daemon logs.
#[derive(Clone, Copy, Debug, PartialEq, Eq)]
pub enum LogLevel {
    Debug,
    Info,
}

/// The daemon's settings once the command line and the configuration file
/// have been read and their defaults applied.
pub struct DaemonConfig {
    pub log_level: LogLevel,
    pub config_path: String,
    pub interface: String,
    pub port: u16,
    pub sleep_cmd: String,
    pub dry_run: bool,
}

/// Configuration file read when none is given on the command line.
pub open spec fn default_config_path() -> Seq<char> {
    "/etc/sleep-on-lan.conf"@
}

/// Interface watched when the configuration names none.
pub open spec fn default_interface() -> Seq<char> {
    "eth0"@
}

/// Port listened on when the configuration names none.
pub const DEFAULT_PORT: u16 = 9;

/// Sleep command run when the configuration names none.
pub open spec fn default_sleep_cmd() -> Seq<char> {
    "systemctl hibernate"@
}

/// Harmless command run in place of the sleep command in dry-run mode.
pub open spec fn dry_run_cmd() -> Seq<char> {
    "echo '[DRY RUN] Shutting down...'"@
}

/// The configuration file to read: the one given, else the default.
pub fn config_path(given: Option<String>) -> (r: String)
    ensures
        r@ == match given {
            Some(p) => p@,
            None => default_config_path(),
        },
{
    match given {
        Some(p) => p,
        None => "/etc/sleep-on-lan.conf".to_owned(),
    }
}

/// Applies the defaults to what the command line and the configuration file
/// gave. In dry-run mode the sleep command is replaced by a harmless one; a
/// port beyond 16 bits keeps its low 16 bits.
pub fn settle_config(
    config_path: String,
    verbose: bool,
    dry_run: bool,
    interface: Option<String>,
    port: Option<u64>,
    sleep_cmd: Option<String>,
) -> (r: DaemonConfig)
    ensures
        r.log_level == (if verbose { LogLevel::Debug } else { LogLevel::Info }),
        r.config_path == config_path,
        r.interface@ == match interface {
            Some(i) => i@,
            None => default_interface(),
        },
        r.port == match port {
            Some(p) => p as u16,
            None => DEFAULT_PORT,
        },
        r.sleep_cmd@ == if dry_run {
            dry_run_cmd()
        } else {
            match sleep_cmd {
                Some(c) => c@,
                None => default_sleep_cmd(),
            }
        },
        r.dry_run == dry_run,
{
    let log_level = if verbose { LogLevel::Debug } else { LogLevel::Info };
    let interface = match interface {
        Some(i) => i,
        None => "eth0".to_owned(),
    };
    let port = match port {
        Some(p) => p as u16,
        None => DEFAULT_PORT,
    };
    let sleep_cmd = if dry_run {
        "echo '[DRY RUN] Shutting down...'".to_owned()
    } else {
        match sleep_cmd {
            Some(c) => c,
            None => "systemctl hibernate".to_owned(),
        }
    };
    DaemonConfig { log_level, config_path, interface, port, sleep_cmd, dry_run }
}

impl DaemonConfig {
    /// The server that these settings describe.
    pub fn into_server(self) -> (r: Server)
        ensures
            r.interface == self.interface,
            r.port == self.port,
            r.sleep_cmd == self.sleep_cmd,
    {
        Server::new(self.interface, self.port, self.sleep_cmd)
    }
}

} // verus!
