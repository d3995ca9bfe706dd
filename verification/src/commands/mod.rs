//! The two commands of the watchdog and the decisions each of them makes.

pub mod status;
pub mod watch;

use vstd::prelude::*;

verus! {

/// The subcommands the program offers.
#[derive(Debug, Clone, Copy, PartialEq, Eq)]
pub enum Commands {
    /// Probe both nodes once, print slot, response time and status, and exit
    /// with code 1 when a problem is found.
    Status,
    /// Run the monitoring daemon: probe every poll interval and send an
    /// alert to Telegram when a problem is found.
    Watch,
}

} // verus!
