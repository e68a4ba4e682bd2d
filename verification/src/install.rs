//! The Install Orchestrator: a state machine that sequences probe, workspace
//! preparation, remote lookup, fetch and build, and tags every failure with
//! the stage it happened in.
//!
//! The machine owns every decision; it performs no I/O. [`Installer::current_action`]
//! says what outside work is wanted next, the caller performs it and reports
//! back through [`Installer::step`]. A successful official-repository probe is
//! treated as terminal success: the native package manager's own database is
//! authoritative, and no separate install invocation is made for it.

use vstd::prelude::*;
use vstd::string::StringExecFns;
use crate::aur::{
    clone_url_spec, info_url_spec, lookup_outcome, lookup_spec, package_info_url, AurPackage,
    LookupError,
};
use crate::cache::{
    get_package_cache, reuse_fetch, src_dir, src_dir_spec, workspace_path_spec, DirState,
};
use crate::cmd::{CommandSpec, SpawnOutcome};
use crate::name::PackageName;
use crate::repo::{classify_probe, classify_probe_spec, probe_command, ProbeResult};

verus! {

/// The pipeline stage a failure is tagged with.
pub enum Stage {
    Probe,
    Workspace,
    Lookup,
    Fetch,
    Build,
}

/// What one orchestration run reports back: success, or the first failing
/// stage with its reason. A run is never retried automatically.
pub enum InstallOutcome {
    Success,
    Failure { stage: Stage, reason: String },
}

/// Where the machine stands: which answer it is waiting for. `Done` is
/// terminal.
pub enum State {
    Probing,
    Preparing,
    Resolving,
    Checking { found: AurPackage },
    Cloning,
    Building,
    Done { outcome: InstallOutcome },
}

/// What the caller reports back after performing the asked-for work.
pub enum Event {
    ProbeFinished { outcome: SpawnOutcome },
    DirEnsured { error: Option<String> },
    HttpFetched { response: Result<String, String> },
    DirInspected { state: DirState },
    CloneFinished { outcome: SpawnOutcome },
    BuildFinished { outcome: SpawnOutcome },
}

/// What the machine asks the caller to do next.
pub enum Action {
    RunProbe { command: CommandSpec },
    EnsureWorkspace { path: String },
    FetchMetadata { url: String },
    InspectSrcDir { path: String },
    RunClone { command: CommandSpec },
    RunBuild { command: CommandSpec },
    Finish { outcome: InstallOutcome },
}

/// The state is a terminal failure at the given stage with the given reason.
pub open spec fn done_failure(s: State, stage: Stage, reason: Seq<char>) -> bool {
    s matches State::Done { outcome: InstallOutcome::Failure { stage: st, reason: r } }
        && st == stage && r@ == reason
}

/// The transition table. For a state/event pair that does not belong
/// together the machine stands still; no event is ever invented or dropped
/// silently on the verified side.
pub open spec fn step_spec(s0: State, e: Event, s1: State) -> bool {
    match (s0, e) {
        (State::Probing, Event::ProbeFinished { outcome }) => match classify_probe_spec(
            outcome,
        ) {
            ProbeResult::Present => s1 == State::Done { outcome: InstallOutcome::Success },
            ProbeResult::Absent => s1 == State::Preparing,
            ProbeResult::ProbeError { reason } => done_failure(s1, Stage::Probe, reason@),
        },
        (State::Preparing, Event::DirEnsured { error }) => match error {
            None => s1 == State::Resolving,
            Some(r) => done_failure(s1, Stage::Workspace, r@),
        },
        (State::Resolving, Event::HttpFetched { response }) => match response {
            Err(r) => done_failure(s1, Stage::Lookup, r@),
            Ok(body) => match lookup_spec(body@) {
                Err(_) => s1 matches State::Done {
                    outcome: InstallOutcome::Failure { stage, .. },
                } && stage == Stage::Lookup,
                Ok(None) => done_failure(s1, Stage::Lookup, "package not found in AUR"@),
                Ok(Some(p)) => s1 matches State::Checking { found } && found.name@ == p.0
                    && found.version@ == p.1 && found.description@ == p.2,
            },
        },
        (State::Checking { .. }, Event::DirInspected { state }) => if reuse_fetch(state) {
            s1 == State::Building
        } else {
            s1 == State::Cloning
        },
        (State::Cloning, Event::CloneFinished { outcome }) => match outcome {
            SpawnOutcome::Exited { success } => if success {
                s1 == State::Building
            } else {
                done_failure(s1, Stage::Fetch, "git clone failed"@)
            },
            SpawnOutcome::SpawnFailed { reason } => done_failure(s1, Stage::Fetch, reason@),
        },
        (State::Building, Event::BuildFinished { outcome }) => match outcome {
            SpawnOutcome::Exited { success } => if success {
                s1 == State::Done { outcome: InstallOutcome::Success }
            } else {
                done_failure(s1, Stage::Build, "makepkg returned error"@)
            },
            SpawnOutcome::SpawnFailed { reason } => done_failure(s1, Stage::Build, reason@),
        },
        _ => s1 == s0,
    }
}

/// The action the machine asks for in each state, pinned down to the exact
/// command, path or URL.
pub open spec fn issues(root: Seq<char>, name: Seq<char>, s: State, a: Action) -> bool {
    match s {
        State::Probing => a matches Action::RunProbe { command } && command.program@ == "pacman"@
            && command.args@.len() == 2 && command.args@[0]@ == "-Si"@
            && command.args@[1]@ == name && command.cwd is None,
        State::Preparing => a matches Action::EnsureWorkspace { path } && path@
            == workspace_path_spec(root, name),
        State::Resolving => a matches Action::FetchMetadata { url } && url@ == info_url_spec(name),
        State::Checking { .. } => a matches Action::InspectSrcDir { path } && path@
            == src_dir_spec(root, name),
        State::Cloning => a matches Action::RunClone { command } && command.program@ == "git"@
            && command.args@.len() == 3 && command.args@[0]@ == "clone"@
            && command.args@[1]@ == clone_url_spec(name)
            && command.args@[2]@ == src_dir_spec(root, name) && command.cwd is None,
        State::Building => a matches Action::RunBuild { command } && command.program@
            == "makepkg"@ && command.args@.len() == 2 && command.args@[0]@ == "-si"@
            && command.args@[1]@ == "--noconfirm"@ && command.cwd is Some
            && command.cwd->0@ == src_dir_spec(root, name),
        State::Done { outcome } => a matches Action::Finish { outcome: o } && o == outcome,
    }
}

/// One orchestration run for one package under one cache root.
pub struct Installer {
    root: String,
    name: PackageName,
    state: State,
}

impl Installer {
    pub closed spec fn root_view(&self) -> Seq<char> {
        self.root@
    }

    pub closed spec fn name_view(&self) -> Seq<char> {
        self.name@
    }

    pub closed spec fn cur(&self) -> State {
        self.state
    }

    /// A fresh run starts by probing the official repository.
    pub fn new(root: String, name: PackageName) -> (r: Installer)
        ensures
            r.cur() == State::Probing,
            r.root_view() == root@,
            r.name_view() == name@,
    {
        Installer { root, name, state: State::Probing }
    }

    /// The outside work the machine is waiting for.
    pub fn current_action(&self) -> (a: Action)
        ensures
            issues(self.root_view(), self.name_view(), self.cur(), a),
    {
        match &self.state {
            State::Probing => Action::RunProbe { command: probe_command(&self.name) },
            State::Preparing => Action::EnsureWorkspace {
                path: get_package_cache(self.root.as_str(), &self.name),
            },
            State::Resolving => Action::FetchMetadata { url: package_info_url(&self.name) },
            State::Checking { .. } => Action::InspectSrcDir {
                path: src_dir(self.root.as_str(), &self.name),
            },
            State::Cloning => {
                let dest = src_dir(self.root.as_str(), &self.name);
                Action::RunClone { command: crate::aur::clone_command(&self.name, dest.as_str()) }
            },
            State::Building => {
                let dest = src_dir(self.root.as_str(), &self.name);
                Action::RunBuild { command: crate::aur::build_command(dest.as_str()) }
            },
            State::Done { outcome } => Action::Finish { outcome: clone_outcome(outcome) },
        }
    }

    /// The metadata the lookup found, while the machine holds it.
    pub fn found_package(&self) -> (r: Option<&AurPackage>)
        ensures
            (r is Some <==> self.cur() is Checking),
            (r matches Some(p) ==> self.cur() matches State::Checking { found } && *p == found),
    {
        match &self.state {
            State::Checking { found } => Some(found),
            _ => None,
        }
    }

    /// The run's result, once the machine is done.
    pub fn outcome(&self) -> (r: Option<&InstallOutcome>)
        ensures
            (r is Some <==> self.cur() is Done),
            (r matches Some(o) ==> self.cur() matches State::Done { outcome } && *o == outcome),
    {
        match &self.state {
            State::Done { outcome } => Some(outcome),
            _ => None,
        }
    }

    /// Feeds back the result of the asked-for work and moves the machine
    /// one transition along the table.
    pub fn step(&mut self, e: Event)
        ensures
            step_spec(old(self).cur(), e, final(self).cur()),
            final(self).root_view() == old(self).root_view(),
            final(self).name_view() == old(self).name_view(),
    {
        match e {
            Event::ProbeFinished { outcome } => {
                if !(matches!(&self.state, State::Probing)) {
                    return;
                }
                match classify_probe(outcome) {
                    ProbeResult::Present => {
                        self.state = State::Done { outcome: InstallOutcome::Success };
                    },
                    ProbeResult::Absent => {
                        self.state = State::Preparing;
                    },
                    ProbeResult::ProbeError { reason } => {
                        self.state = State::Done {
                            outcome: InstallOutcome::Failure { stage: Stage::Probe, reason },
                        };
                    },
                }
            },
            Event::DirEnsured { error } => {
                if !(matches!(&self.state, State::Preparing)) {
                    return;
                }
                match error {
                    None => {
                        self.state = State::Resolving;
                    },
                    Some(reason) => {
                        self.state = State::Done {
                            outcome: InstallOutcome::Failure { stage: Stage::Workspace, reason },
                        };
                    },
                }
            },
            Event::HttpFetched { response } => {
                if !(matches!(&self.state, State::Resolving)) {
                    return;
                }
                match lookup_outcome(response) {
                    Err(err) => {
                        let reason = match err {
                            LookupError::Network { reason } => reason,
                            LookupError::Protocol { reason } => reason,
                        };
                        self.state = State::Done {
                            outcome: InstallOutcome::Failure { stage: Stage::Lookup, reason },
                        };
                    },
                    Ok(None) => {
                        self.state = State::Done {
                            outcome: InstallOutcome::Failure {
                                stage: Stage::Lookup,
                                reason: String::from_str("package not found in AUR"),
                            },
                        };
                    },
                    Ok(Some(found)) => {
                        self.state = State::Checking { found };
                    },
                }
            },
            Event::DirInspected { state } => {
                if !(matches!(&self.state, State::Checking { .. })) {
                    return;
                }
                match state {
                    DirState::NonEmptyDir => {
                        self.state = State::Building;
                    },
                    DirState::Missing => {
                        self.state = State::Cloning;
                    },
                    DirState::EmptyDir => {
                        self.state = State::Cloning;
                    },
                }
            },
            Event::CloneFinished { outcome } => {
                if !(matches!(&self.state, State::Cloning)) {
                    return;
                }
                match outcome {
                    SpawnOutcome::Exited { success } => if success {
                        self.state = State::Building;
                    } else {
                        self.state = State::Done {
                            outcome: InstallOutcome::Failure {
                                stage: Stage::Fetch,
                                reason: String::from_str("git clone failed"),
                            },
                        };
                    },
                    SpawnOutcome::SpawnFailed { reason } => {
                        self.state = State::Done {
                            outcome: InstallOutcome::Failure { stage: Stage::Fetch, reason },
                        };
                    },
                }
            },
            Event::BuildFinished { outcome } => {
                if !(matches!(&self.state, State::Building)) {
                    return;
                }
                match outcome {
                    SpawnOutcome::Exited { success } => if success {
                        self.state = State::Done { outcome: InstallOutcome::Success };
                    } else {
                        self.state = State::Done {
                            outcome: InstallOutcome::Failure {
                                stage: Stage::Build,
                                reason: String::from_str("makepkg returned error"),
                            },
                        };
                    },
                    SpawnOutcome::SpawnFailed { reason } => {
                        self.state = State::Done {
                            outcome: InstallOutcome::Failure { stage: Stage::Build, reason },
                        };
                    },
                }
            },
        }
    }
}

/// A field-for-field copy of a run's outcome.
fn clone_outcome(o: &InstallOutcome) -> (r: InstallOutcome)
    ensures
        r == *o,
{
    match o {
        InstallOutcome::Success => InstallOutcome::Success,
        InstallOutcome::Failure { stage, reason } => InstallOutcome::Failure {
            stage: clone_stage(stage),
            reason: reason.clone(),
        },
    }
}

/// A copy of a stage tag.
fn clone_stage(s: &Stage) -> (r: Stage)
    ensures
        r == *s,
{
    match s {
        Stage::Probe => Stage::Probe,
        Stage::Workspace => Stage::Workspace,
        Stage::Lookup => Stage::Lookup,
        Stage::Fetch => Stage::Fetch,
        Stage::Build => Stage::Build,
    }
}

/// The machine's reachability relation: where a run can stand after a whole
/// sequence of events.
pub open spec fn reaches(s0: State, events: Seq<Event>, s1: State) -> bool
    decreases events.len(),
{
    if events.len() == 0 {
        s1 == s0
    } else {
        exists|m: State|
            #[trigger] step_spec(s0, events[0], m) && reaches(m, events.drop_first(), s1)
    }
}

/// Terminal law: a finished run is absorbing. No later event moves the
/// machine out of `Done`, and the only action it ever issues again is to
/// report its outcome.
pub proof fn lemma_done_absorbs(outcome: InstallOutcome, events: Seq<Event>, s1: State)
    requires
        (reaches(State::Done { outcome }, events, s1)),
    ensures
        (s1 == State::Done { outcome }),
    decreases events.len(),
{
    if events.len() > 0 {
        let m = choose|m: State|
            #[trigger] step_spec(State::Done { outcome }, events[0], m)
                && reaches(m, events.drop_first(), s1);
        assert(m == State::Done { outcome });
        lemma_done_absorbs(outcome, events.drop_first(), s1);
    }
}

/// Short-circuit law: once the official-repository probe has reported the
/// package present, the run is terminally successful, and no later event can
/// make it issue the remote lookup, the clone or the build.
pub proof fn lemma_present_short_circuits(
    root: Seq<char>,
    name: Seq<char>,
    e: Event,
    s1: State,
    rest: Seq<Event>,
    s2: State,
    a: Action,
)
    requires
        (e matches Event::ProbeFinished { outcome } && outcome matches SpawnOutcome::Exited {
            success,
        } && success),
        step_spec(State::Probing, e, s1),
        reaches(s1, rest, s2),
        issues(root, name, s2, a),
    ensures
        (s1 == State::Done { outcome: InstallOutcome::Success }),
        (a == Action::Finish { outcome: InstallOutcome::Success }),
        !(a is FetchMetadata),
        !(a is RunClone),
        !(a is RunBuild),
{
    lemma_done_absorbs(InstallOutcome::Success, rest, s2);
}

/// Not-found law: when the probe has said absent and the remote lookup
/// legitimately returns zero results, the run fails at the lookup stage and
/// never issues the fetch or the build.
pub proof fn lemma_not_found_stops(
    root: Seq<char>,
    name: Seq<char>,
    e: Event,
    s1: State,
    rest: Seq<Event>,
    s2: State,
    a: Action,
)
    requires
        (e matches Event::HttpFetched { response } && response matches Ok(body) && lookup_spec(
            body@,
        ) matches Ok(opt) && opt is None),
        step_spec(State::Resolving, e, s1),
        reaches(s1, rest, s2),
        issues(root, name, s2, a),
    ensures
        (s1 matches State::Done { outcome } && outcome matches InstallOutcome::Failure {
            stage,
            ..
        } && stage == Stage::Lookup),
        (a is Finish),
        !(a is InspectSrcDir),
        !(a is RunClone),
        !(a is RunBuild),
{
    lemma_done_absorbs(s1->outcome, rest, s2);
}

/// Probe-failure law: a probe tool that cannot run is reported as a
/// probe-stage failure, never read as package absence.
pub proof fn lemma_probe_failure_reported(e: Event, s1: State, reason: Seq<char>)
    requires
        (e matches Event::ProbeFinished { outcome } && outcome matches SpawnOutcome::SpawnFailed {
            reason: r,
        } && r@ == reason),
        step_spec(State::Probing, e, s1),
    ensures
        done_failure(s1, Stage::Probe, reason),
{
}

/// Workspace-failure law: an un-creatable workspace stops the run before
/// any network request is ever issued.
pub proof fn lemma_workspace_failure_stops(
    root: Seq<char>,
    name: Seq<char>,
    e: Event,
    s1: State,
    rest: Seq<Event>,
    s2: State,
    a: Action,
)
    requires
        (e matches Event::DirEnsured { error } && error is Some),
        step_spec(State::Preparing, e, s1),
        reaches(s1, rest, s2),
        issues(root, name, s2, a),
    ensures
        (s1 matches State::Done { outcome } && outcome matches InstallOutcome::Failure {
            stage,
            ..
        } && stage == Stage::Workspace),
        !(a is FetchMetadata),
        !(a is RunClone),
        !(a is RunBuild),
{
    lemma_done_absorbs(s1->outcome, rest, s2);
}

/// From `Building` the machine only ever builds or finishes: every state it
/// can still reach is `Building` itself or `Done`.
pub proof fn lemma_from_building_no_clone(events: Seq<Event>, s1: State)
    requires
        (reaches(State::Building, events, s1)),
    ensures
        (s1 == State::Building || s1 is Done),
    decreases events.len(),
{
    if events.len() > 0 {
        let m = choose|m: State|
            #[trigger] step_spec(State::Building, events[0], m)
                && reaches(m, events.drop_first(), s1);
        if m is Done {
            lemma_done_absorbs(m->outcome, events.drop_first(), s1);
        } else {
            assert(m == State::Building);
            lemma_from_building_no_clone(events.drop_first(), s1);
        }
    }
}

/// Reuse law: a non-empty source directory counts as already fetched,
/// whatever it holds: the run goes straight to building and the clone
/// command is never issued afterwards.
pub proof fn lemma_reuse_skips_clone(
    root: Seq<char>,
    name: Seq<char>,
    found: AurPackage,
    e: Event,
    s1: State,
    rest: Seq<Event>,
    s2: State,
    a: Action,
)
    requires
        (e matches Event::DirInspected { state } && state is NonEmptyDir),
        (step_spec(State::Checking { found }, e, s1)),
        reaches(s1, rest, s2),
        issues(root, name, s2, a),
    ensures
        (s1 == State::Building),
        !(a is RunClone),
{
    lemma_from_building_no_clone(rest, s2);
}

} // verus!
