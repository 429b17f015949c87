//! The commands the program understands. Argument parsing itself is plain
//! I/O and lives with the program; these are the parsed shapes it hands on.

use vstd::prelude::*;

verus! {

/// The default account pool size of the setup and load commands.
pub const DEFAULT_ACCOUNTS: u32 = 1000;

/// The default steady-state rate of the sustained load command.
pub const DEFAULT_INVOCATIONS_PER_SEC: u32 = 100;

/// The parsed command line.
pub struct Args {
    pub command: Command,
}

/// One invocation of the program does exactly one of these.
pub enum Command {
    /// Exercise one chapter of the demo.
    TestChapter { chapter: u32 },
    /// Create the schema and seed the given number of accounts.
    Setup { accounts: u32 },
    /// Grow the account table to the large fixed population.
    SetupCh04,
    /// Drive sustained load until interrupted.
    SustainedLoad { invocations_per_sec: u32, accounts: u32 },
}

} // verus!
