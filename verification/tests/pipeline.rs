use nay::aur::{clone_command, build_command, clone_source_url, lookup_outcome, package_info_url, parse_package_info, LookupError};
use nay::cache::{cache_root_from, get_package_cache, src_dir, DirState};
use nay::cmd::SpawnOutcome;
use nay::install::{Action, Event, InstallOutcome, Installer, Stage};
use nay::name::PackageName;
use nay::repo::{classify_probe, probe_command, ProbeResult};

fn pkg(s: &str) -> PackageName {
    PackageName::new(String::from(s)).unwrap()
}

#[test]
fn package_name_rejects_empty() {
    assert!(PackageName::new(String::new()).is_none());
}

#[test]
fn package_name_rejects_path_separators() {
    assert!(PackageName::new(String::from("a/b")).is_none());
    assert!(PackageName::new(String::from("a\\b")).is_none());
    assert!(PackageName::new(String::from("/")).is_none());
}

#[test]
fn package_name_accepts_ordinary_names() {
    let p = pkg("yay-bin");
    assert_eq!(p.as_str(), "yay-bin");
}

#[test]
fn probe_classification_keeps_failure_apart_from_absence() {
    assert!(matches!(
        classify_probe(SpawnOutcome::Exited { success: true }),
        ProbeResult::Present
    ));
    assert!(matches!(
        classify_probe(SpawnOutcome::Exited { success: false }),
        ProbeResult::Absent
    ));
    let r = classify_probe(SpawnOutcome::SpawnFailed { reason: String::from("no pacman") });
    match r {
        ProbeResult::ProbeError { reason } => assert_eq!(reason, "no pacman"),
        _ => panic!("a spawn failure must not look like absence"),
    }
}

#[test]
fn probe_command_is_pacman_show_info() {
    let c = probe_command(&pkg("bash"));
    assert_eq!(c.program, "pacman");
    assert_eq!(c.args.len(), 2);
    assert_eq!(c.args[0], "-Si");
    assert_eq!(c.args[1], "bash");
    assert!(c.cwd.is_none());
}

#[test]
fn info_url_is_the_fixed_rpc_query() {
    let u = package_info_url(&pkg("yay-bin"));
    assert_eq!(u, "https://aur.archlinux.org/rpc/?v=5&type=info&arg=yay-bin");
}

#[test]
fn clone_url_is_the_fixed_git_target() {
    let u = clone_source_url(&pkg("yay-bin"));
    assert_eq!(u, "https://aur.archlinux.org/yay-bin.git");
}

#[test]
fn clone_and_build_commands_are_fixed() {
    let c = clone_command(&pkg("yay-bin"), "root/yay-bin/src");
    assert_eq!(c.program, "git");
    assert_eq!(c.args[0], "clone");
    assert_eq!(c.args[1], "https://aur.archlinux.org/yay-bin.git");
    assert_eq!(c.args[2], "root/yay-bin/src");
    let b = build_command("root/yay-bin/src");
    assert_eq!(b.program, "makepkg");
    assert_eq!(b.args[0], "-si");
    assert_eq!(b.args[1], "--noconfirm");
    assert_eq!(b.cwd.as_deref(), Some("root/yay-bin/src"));
}

#[test]
fn cache_root_prefers_cache_then_home_then_current() {
    assert_eq!(
        cache_root_from(Some(String::from("/c")), Some(String::from("/h"))),
        "/c/nay/builds"
    );
    assert_eq!(cache_root_from(None, Some(String::from("/h"))), "/h/nay/builds");
    assert_eq!(cache_root_from(None, None), "./nay/builds");
}

#[test]
fn workspace_path_is_deterministic_and_reused() {
    let p = pkg("yay-bin");
    let first = get_package_cache("/c/nay/builds", &p);
    let second = get_package_cache("/c/nay/builds", &p);
    assert_eq!(first, second);
    assert_eq!(first, "/c/nay/builds/yay-bin");
    assert_eq!(src_dir("/c/nay/builds", &p), "/c/nay/builds/yay-bin/src");
}

#[test]
fn lookup_round_trip_single_entry() {
    let body = "{\"results\":[{\"name\":\"foo\",\"version\":\"1.0\",\"description\":\"d\"}]}";
    let r = parse_package_info(body).unwrap().unwrap();
    assert_eq!(r.name, "foo");
    assert_eq!(r.version, "1.0");
    assert_eq!(r.description, "d");
}

#[test]
fn lookup_round_trip_empty_results() {
    let r = parse_package_info("{\"results\":[]}").unwrap();
    assert!(r.is_none());
}

#[test]
fn lookup_takes_the_first_entry_and_ignores_extra_members() {
    let body = "{\"version\":5,\"resultcount\":2,\"results\":[\
        {\"name\":\"a\",\"version\":\"1\",\"description\":\"x\",\"votes\":10},\
        {\"name\":\"b\",\"version\":\"2\",\"description\":\"y\"}]}";
    let r = parse_package_info(body).unwrap().unwrap();
    assert_eq!(r.name, "a");
    assert_eq!(r.version, "1");
    assert_eq!(r.description, "x");
}

#[test]
fn lookup_rejects_bodies_off_the_schema() {
    for body in [
        "not json at all",
        "{}",
        "{\"results\":5}",
        "[1,2,3]",
        "{\"results\":[{\"name\":\"x\",\"version\":\"1\"}]}",
        "{\"results\":[{\"name\":7,\"version\":\"1\",\"description\":\"d\"}]}",
    ] {
        match parse_package_info(body) {
            Err(LookupError::Protocol { .. }) => {}
            _ => panic!("schema mismatch must be a protocol error: {}", body),
        }
    }
}

#[test]
fn transport_failure_is_a_network_error() {
    match lookup_outcome(Err(String::from("dns failure"))) {
        Err(LookupError::Network { reason }) => assert_eq!(reason, "dns failure"),
        _ => panic!("a transport failure must be a network error"),
    }
    match lookup_outcome(Ok(String::from("{\"results\":[]}"))) {
        Ok(None) => {}
        _ => panic!("an empty result list is a clean not-found"),
    }
}

fn expect_probe(inst: &Installer) {
    match inst.current_action() {
        Action::RunProbe { command } => {
            assert_eq!(command.program, "pacman");
        }
        _ => panic!("a fresh run must start with the probe"),
    }
}

#[test]
fn scenario_official_package_short_circuits() {
    let mut inst = Installer::new(String::from("root"), pkg("bash"));
    expect_probe(&inst);
    inst.step(Event::ProbeFinished { outcome: SpawnOutcome::Exited { success: true } });
    match inst.outcome() {
        Some(InstallOutcome::Success) => {}
        _ => panic!("an official package is a success"),
    }
    // No lookup, fetch or build is ever asked for afterwards.
    assert!(matches!(inst.current_action(), Action::Finish { .. }));
    inst.step(Event::HttpFetched { response: Ok(String::from("{\"results\":[]}")) });
    assert!(matches!(inst.current_action(), Action::Finish { .. }));
}

#[test]
fn scenario_community_package_is_fetched_and_built() {
    let mut inst = Installer::new(String::from("root"), pkg("yay-bin"));
    expect_probe(&inst);
    inst.step(Event::ProbeFinished { outcome: SpawnOutcome::Exited { success: false } });
    match inst.current_action() {
        Action::EnsureWorkspace { path } => assert_eq!(path, "root/yay-bin"),
        _ => panic!("after absence the workspace is prepared"),
    }
    inst.step(Event::DirEnsured { error: None });
    match inst.current_action() {
        Action::FetchMetadata { url } => {
            assert_eq!(url, "https://aur.archlinux.org/rpc/?v=5&type=info&arg=yay-bin")
        }
        _ => panic!("after the workspace the metadata is looked up"),
    }
    let body = "{\"results\":[{\"name\":\"yay-bin\",\"version\":\"12.0\",\"description\":\"an AUR helper\"}]}";
    inst.step(Event::HttpFetched { response: Ok(String::from(body)) });
    let found = inst.found_package().expect("one match was returned");
    assert_eq!(found.name, "yay-bin");
    assert_eq!(found.version, "12.0");
    match inst.current_action() {
        Action::InspectSrcDir { path } => assert_eq!(path, "root/yay-bin/src"),
        _ => panic!("after a match the source directory is inspected"),
    }
    inst.step(Event::DirInspected { state: DirState::Missing });
    match inst.current_action() {
        Action::RunClone { command } => {
            assert_eq!(command.program, "git");
            assert_eq!(command.args[1], "https://aur.archlinux.org/yay-bin.git");
            assert_eq!(command.args[2], "root/yay-bin/src");
        }
        _ => panic!("a missing source directory is cloned"),
    }
    inst.step(Event::CloneFinished { outcome: SpawnOutcome::Exited { success: true } });
    match inst.current_action() {
        Action::RunBuild { command } => {
            assert_eq!(command.program, "makepkg");
            assert_eq!(command.cwd.as_deref(), Some("root/yay-bin/src"));
        }
        _ => panic!("a fetched recipe is built"),
    }
    inst.step(Event::BuildFinished { outcome: SpawnOutcome::Exited { success: true } });
    assert!(matches!(inst.outcome(), Some(InstallOutcome::Success)));
}

#[test]
fn scenario_unknown_package_fails_at_lookup() {
    let mut inst = Installer::new(String::from("root"), pkg("not-a-real-pkg"));
    inst.step(Event::ProbeFinished { outcome: SpawnOutcome::Exited { success: false } });
    inst.step(Event::DirEnsured { error: None });
    inst.step(Event::HttpFetched { response: Ok(String::from("{\"results\":[]}")) });
    match inst.outcome() {
        Some(InstallOutcome::Failure { stage, reason }) => {
            assert!(matches!(stage, Stage::Lookup));
            assert_eq!(reason, "package not found in AUR");
        }
        _ => panic!("zero results is a lookup-stage failure"),
    }
    assert!(matches!(inst.current_action(), Action::Finish { .. }));
}

#[test]
fn nonempty_source_directory_skips_the_clone() {
    let mut inst = Installer::new(String::from("root"), pkg("yay-bin"));
    inst.step(Event::ProbeFinished { outcome: SpawnOutcome::Exited { success: false } });
    inst.step(Event::DirEnsured { error: None });
    let body = "{\"results\":[{\"name\":\"yay-bin\",\"version\":\"12.0\",\"description\":\"d\"}]}";
    inst.step(Event::HttpFetched { response: Ok(String::from(body)) });
    inst.step(Event::DirInspected { state: DirState::NonEmptyDir });
    // Straight to the build: the clone command is never issued.
    assert!(matches!(inst.current_action(), Action::RunBuild { .. }));
}

#[test]
fn probe_spawn_failure_is_a_probe_stage_failure() {
    let mut inst = Installer::new(String::from("root"), pkg("bash"));
    inst.step(Event::ProbeFinished {
        outcome: SpawnOutcome::SpawnFailed { reason: String::from("pacman missing") },
    });
    match inst.outcome() {
        Some(InstallOutcome::Failure { stage, reason }) => {
            assert!(matches!(stage, Stage::Probe));
            assert_eq!(reason, "pacman missing");
        }
        _ => panic!("a probe tool that cannot run is a probe failure"),
    }
}

#[test]
fn workspace_failure_stops_before_any_network_request() {
    let mut inst = Installer::new(String::from("root"), pkg("yay-bin"));
    inst.step(Event::ProbeFinished { outcome: SpawnOutcome::Exited { success: false } });
    inst.step(Event::DirEnsured { error: Some(String::from("read-only parent")) });
    match inst.outcome() {
        Some(InstallOutcome::Failure { stage, reason }) => {
            assert!(matches!(stage, Stage::Workspace));
            assert_eq!(reason, "read-only parent");
        }
        _ => panic!("an un-creatable workspace is a workspace failure"),
    }
    assert!(matches!(inst.current_action(), Action::Finish { .. }));
}

#[test]
fn network_failure_is_a_lookup_stage_failure() {
    let mut inst = Installer::new(String::from("root"), pkg("yay-bin"));
    inst.step(Event::ProbeFinished { outcome: SpawnOutcome::Exited { success: false } });
    inst.step(Event::DirEnsured { error: None });
    inst.step(Event::HttpFetched { response: Err(String::from("connection refused")) });
    match inst.outcome() {
        Some(InstallOutcome::Failure { stage, reason }) => {
            assert!(matches!(stage, Stage::Lookup));
            assert_eq!(reason, "connection refused");
        }
        _ => panic!("a transport failure is a lookup failure"),
    }
}

#[test]
fn clone_failure_is_a_fetch_stage_failure() {
    let mut inst = Installer::new(String::from("root"), pkg("yay-bin"));
    inst.step(Event::ProbeFinished { outcome: SpawnOutcome::Exited { success: false } });
    inst.step(Event::DirEnsured { error: None });
    let body = "{\"results\":[{\"name\":\"yay-bin\",\"version\":\"12.0\",\"description\":\"d\"}]}";
    inst.step(Event::HttpFetched { response: Ok(String::from(body)) });
    inst.step(Event::DirInspected { state: DirState::Missing });
    inst.step(Event::CloneFinished { outcome: SpawnOutcome::Exited { success: false } });
    match inst.outcome() {
        Some(InstallOutcome::Failure { stage, .. }) => assert!(matches!(stage, Stage::Fetch)),
        _ => panic!("a failing clone is a fetch failure"),
    }
    assert!(matches!(inst.current_action(), Action::Finish { .. }));
}

#[test]
fn build_failure_is_a_build_stage_failure() {
    let mut inst = Installer::new(String::from("root"), pkg("yay-bin"));
    inst.step(Event::ProbeFinished { outcome: SpawnOutcome::Exited { success: false } });
    inst.step(Event::DirEnsured { error: None });
    let body = "{\"results\":[{\"name\":\"yay-bin\",\"version\":\"12.0\",\"description\":\"d\"}]}";
    inst.step(Event::HttpFetched { response: Ok(String::from(body)) });
    inst.step(Event::DirInspected { state: DirState::EmptyDir });
    inst.step(Event::CloneFinished { outcome: SpawnOutcome::Exited { success: true } });
    inst.step(Event::BuildFinished { outcome: SpawnOutcome::Exited { success: false } });
    match inst.outcome() {
        Some(InstallOutcome::Failure { stage, .. }) => assert!(matches!(stage, Stage::Build)),
        _ => panic!("a failing build is a build failure"),
    }
}

#[test]
fn malformed_response_is_a_lookup_stage_failure() {
    let mut inst = Installer::new(String::from("root"), pkg("yay-bin"));
    inst.step(Event::ProbeFinished { outcome: SpawnOutcome::Exited { success: false } });
    inst.step(Event::DirEnsured { error: None });
    inst.step(Event::HttpFetched { response: Ok(String::from("<html>down</html>")) });
    match inst.outcome() {
        Some(InstallOutcome::Failure { stage, .. }) => assert!(matches!(stage, Stage::Lookup)),
        _ => panic!("an off-schema response is a lookup failure"),
    }
}
