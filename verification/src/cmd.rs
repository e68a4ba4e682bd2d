//! Plain descriptions of the external commands the pipeline asks for, and of
//! how running one turned out. The library never spawns anything itself: it
//! hands a [`CommandSpec`] out and is handed a [`SpawnOutcome`] back.

use vstd::prelude::*;

verus! {

/// A subprocess invocation: program, arguments, and an optional working
/// directory. Only its exit signal is ever inspected.
pub struct CommandSpec {
    pub program: String,
    pub args: Vec<String>,
    pub cwd: Option<String>,
}

/// How an attempted subprocess run ended: the process ran and exited
/// (successfully or not), or it could not even be spawned.
pub enum SpawnOutcome {
    Exited { success: bool },
    SpawnFailed { reason: String },
}

} // verus!
