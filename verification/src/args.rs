//! Parsed command-line inputs of the attach client, and the logging-level
//! selection rule.
//!
//! Argument parsing itself is an external collaborator; it hands the library
//! these already-parsed plain values.

use vstd::prelude::*;

verus! {

/// Debug-console port requested when the user names none.
pub const DEFAULT_DEBUG_PORT: u32 = 1025;

/// Base directory scanned for per-pod control sockets.
pub const KUASAR_SOCKET_PREFIX: &'static str = "/run/kuasar";

/// Arguments of the `exec` subcommand: which pod to attach to, and on which
/// in-sandbox service port.
#[derive(Debug)]
pub struct ExecArgs {
    pub pod_id: String,
    pub port: u32,
}

/// The subcommands the client accepts.
#[derive(Debug)]
pub enum Commands {
    Exec(ExecArgs),
}

/// The whole parsed command line.
#[derive(Debug)]
pub struct Cli {
    pub verbose: u8,
    pub command: Commands,
}

/// Maps the count of `-v` flags to the name of the logging level the session
/// runs with.
pub fn log_level_name(verbose: u8) -> (r: &'static str)
    ensures
        verbose == 0 ==> r@ == "warn"@,
        verbose == 1 ==> r@ == "info"@,
        verbose == 2 ==> r@ == "debug"@,
        verbose >= 3 ==> r@ == "trace"@,
{
    match verbose {
        0 => "warn",
        1 => "info",
        2 => "debug",
        _ => "trace",
    }
}

} // verus!
