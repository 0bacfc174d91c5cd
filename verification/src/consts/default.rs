//! The values of the settings that a configuration file leaves out.

use crate::milter::Status;
use vstd::prelude::*;

verus! {

pub const RUN_DIR: &'static str = "/var/run/postkeeper";

pub const ALLOW_MAP: &'static str = "/etc/postkeeper/allow.map";

pub const BLOCK_MAP: &'static str = "/etc/postkeeper/block.map";

pub const CONFIG_PATH: &'static str = "/etc/postkeeper/postkeeper.ini";

pub const LOGFILE: &'static str = "/var/log/postkeeper.log";

pub const PIDFILE: &'static str = "/var/run/postkeeper/postkeeper.pid";

pub const SOCKET: &'static str = "inet:11210@localhost";

pub const RELOAD_INTERVAL: &'static str = "60";

pub const MILTER_STATUS: Status = Status::Reject;

} // verus!
