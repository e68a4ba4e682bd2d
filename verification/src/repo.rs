//! The official-repository probe: ask the native package manager whether a
//! name exists in the curated repository, judging only by its exit signal.

use vstd::prelude::*;
use vstd::string::StringExecFns;
use crate::cmd::{CommandSpec, SpawnOutcome};
use crate::name::PackageName;

verus! {

/// The probe's tri-state answer. A failure to even run the probe tool is kept
/// apart from a clean "not in the official repository" answer: collapsing the
/// two would make a broken environment look like an absent package.
pub enum ProbeResult {
    Present,
    Absent,
    ProbeError { reason: String },
}

/// How a finished probe attempt is read: a successful exit means the package
/// is present, a failing exit means it is absent, and a spawn failure means
/// the probe itself failed.
pub open spec fn classify_probe_spec(outcome: SpawnOutcome) -> ProbeResult {
    match outcome {
        SpawnOutcome::Exited { success } => if success {
            ProbeResult::Present
        } else {
            ProbeResult::Absent
        },
        SpawnOutcome::SpawnFailed { reason } => ProbeResult::ProbeError { reason },
    }
}

/// Turns the exit signal of the "show package info" invocation into the
/// probe's tri-state result.
pub fn classify_probe(outcome: SpawnOutcome) -> (r: ProbeResult)
    ensures
        r == classify_probe_spec(outcome),
{
    match outcome {
        SpawnOutcome::Exited { success } => if success {
            ProbeResult::Present
        } else {
            ProbeResult::Absent
        },
        SpawnOutcome::SpawnFailed { reason } => ProbeResult::ProbeError { reason },
    }
}

/// The native package manager's "show package info" invocation for a name;
/// only its exit signal is ever inspected.
pub fn probe_command(name: &PackageName) -> (r: CommandSpec)
    ensures
        r.program@ == "pacman"@,
        r.args@.len() == 2,
        r.args@[0]@ == "-Si"@,
        r.args@[1]@ == name@,
        (r.cwd is None),
{
    let mut args: Vec<String> = Vec::new();
    args.push(String::from_str("-Si"));
    args.push(String::from_str(name.as_str()));
    CommandSpec { program: String::from_str("pacman"), args, cwd: None }
}

} // verus!
