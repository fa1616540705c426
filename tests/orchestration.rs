use cargo_near_build::artifact::{artifact_dir, entry_is_artifact, find_artifact, DirEntry};
use cargo_near_build::error::BuildError;
use cargo_near_build::invocation::{build_invocation, build_script, cargo_args};
use cargo_near_build::options::{BuildCommand, ColorPreference};
use cargo_near_build::orchestrator::{
    fallback_warning, Action, Event, Orchestrator, PathReading, Phase,
};

const IMAGE: &str = "sourcescan/cargo-near:0.6.0";

fn options(manifest: Option<&str>) -> BuildCommand {
    BuildCommand {
        no_docker: false,
        no_release: false,
        no_abi: false,
        no_embed_abi: false,
        no_doc: false,
        out_dir: None,
        manifest_path: manifest.map(|m| m.to_string()),
        color: None,
    }
}

fn file(path: &str) -> DirEntry {
    DirEntry { path: path.to_string(), is_utf8: true, is_file: true }
}

fn local_ok(path: &str) -> Event {
    Event::LocalBuildFinished(Ok(path.to_string()))
}

fn finished_with(action: Action) -> Result<String, BuildError> {
    match action {
        Action::Finish(r) => r,
        other => panic!("expected the run to finish, got {:?}", other),
    }
}

#[test]
fn color_names() {
    assert_eq!(ColorPreference::Auto.name(), "auto");
    assert_eq!(ColorPreference::Always.name(), "always");
    assert_eq!(ColorPreference::Never.name(), "never");
}

#[test]
fn cargo_args_default_only_color() {
    assert_eq!(cargo_args(&options(None)), vec!["--color", "auto"]);
}

#[test]
fn cargo_args_all_flags() {
    let mut o = options(None);
    o.no_release = true;
    o.no_abi = true;
    o.no_embed_abi = true;
    o.no_doc = true;
    o.color = Some(ColorPreference::Never);
    assert_eq!(
        cargo_args(&o),
        vec!["--no-release", "--no-abi", "--no-embed-abi", "--no-doc", "--color", "never"]
    );
}

#[test]
fn build_script_embeds_flags() {
    let mut o = options(None);
    o.no_doc = true;
    o.color = Some(ColorPreference::Always);
    assert_eq!(build_script(&o), "cd /host && cargo near build --no-doc --color always");
}

#[test]
fn invocation_mounts_root_and_pins_image() {
    let inv = build_invocation(&options(None), "/work/proj", IMAGE);
    assert_eq!(inv.program, "docker");
    assert_eq!(
        inv.args,
        vec![
            "run",
            "--name",
            "cargo-near-container",
            "-v",
            "/work/proj:/host",
            "--rm",
            "-it",
            IMAGE,
            "bash",
            "-c",
            "cd /host && cargo near build --color auto",
        ]
    );
}

#[test]
fn artifact_dir_is_target_near() {
    assert_eq!(artifact_dir("/work/proj"), "/work/proj/target/near");
}

#[test]
fn artifact_entries() {
    assert!(entry_is_artifact(&file("/d/contract.wasm")));
    assert!(!entry_is_artifact(&file("/d/contract.json")));
    assert!(!entry_is_artifact(&file("/d/wasm")));
    assert!(!entry_is_artifact(&file("/d/.wasm")));
    let dir = DirEntry { path: "/d/sub.wasm".to_string(), is_utf8: true, is_file: false };
    assert!(!entry_is_artifact(&dir));
}

#[test]
fn find_artifact_in_empty_dir_fails() {
    let dir = "/p/target/near".to_string();
    let r = find_artifact(&dir, &vec![]);
    assert!(matches!(r, Err(BuildError::ArtifactNotFound { dir: d }) if d == "/p/target/near"));
}

#[test]
fn find_artifact_without_match_fails() {
    let dir = "/p/target/near".to_string();
    let r = find_artifact(&dir, &vec![file("/p/target/near/abi.json"), file("/p/target/near/x.zip")]);
    assert!(matches!(r, Err(BuildError::ArtifactNotFound { .. })));
}

#[test]
fn find_artifact_takes_first_match() {
    let dir = "/p/target/near".to_string();
    let entries = vec![
        file("/p/target/near/abi.json"),
        file("/p/target/near/a.wasm"),
        file("/p/target/near/b.wasm"),
    ];
    assert_eq!(find_artifact(&dir, &entries).unwrap(), "/p/target/near/a.wasm");
}

#[test]
fn find_artifact_non_utf8_path_fails() {
    let dir = "/p/target/near".to_string();
    let bad = DirEntry { path: "/p/target/near/\u{FFFD}.wasm".to_string(), is_utf8: false, is_file: true };
    let r = find_artifact(&dir, &vec![bad]);
    assert!(matches!(r, Err(BuildError::PathConversionFailure { raw }) if raw == "/p/target/near/\u{FFFD}.wasm"));
}

#[test]
fn skip_container_runs_local_only() {
    let mut o = options(Some("/p"));
    o.no_docker = true;
    let (mut orch, first) = Orchestrator::start(o, IMAGE.to_string());
    assert!(matches!(first, Action::RunLocal));
    assert!(matches!(orch.step(Event::ContainerLaunchFailed), Action::Ignore));
    let r = finished_with(orch.step(local_ok("/p/out/local.wasm")));
    assert_eq!(r.unwrap(), "/p/out/local.wasm");
    assert!(orch.is_finished());
}

#[test]
fn skip_container_passes_local_error_through() {
    let mut o = options(None);
    o.no_docker = true;
    let (mut orch, first) = Orchestrator::start(o, IMAGE.to_string());
    assert!(matches!(first, Action::RunLocal));
    let e = BuildError::LocalBuildFailed { message: "compile error".to_string() };
    let r = finished_with(orch.step(Event::LocalBuildFinished(Err(e))));
    assert!(matches!(r, Err(BuildError::LocalBuildFailed { message }) if message == "compile error"));
}

#[test]
fn launch_failure_falls_back_with_one_warning() {
    let (mut orch, first) = Orchestrator::start(options(Some("/p")), IMAGE.to_string());
    assert!(matches!(first, Action::LaunchContainer(_)));
    let mut warnings = 0;
    let a = orch.step(Event::ContainerLaunchFailed);
    if matches!(a, Action::WarnAndRunLocal) {
        warnings += 1;
    }
    let b = orch.step(local_ok("/p/target/near/local.wasm"));
    if matches!(b, Action::WarnAndRunLocal) {
        warnings += 1;
    }
    assert_eq!(warnings, 1);
    assert_eq!(finished_with(b).unwrap(), "/p/target/near/local.wasm");
}

#[test]
fn non_zero_exit_falls_back_with_one_warning() {
    let (mut orch, _) = Orchestrator::start(options(None), IMAGE.to_string());
    let a = orch.step(Event::CurrentDir(PathReading::Utf8("/cwd".to_string())));
    match a {
        Action::LaunchContainer(inv) => assert_eq!(inv.args[4], "/cwd:/host"),
        other => panic!("expected a container launch, got {:?}", other),
    }
    let b = orch.step(Event::ContainerExited { success: false });
    assert!(matches!(b, Action::WarnAndRunLocal));
    let c = orch.step(local_ok("/cwd/local.wasm"));
    assert_eq!(finished_with(c).unwrap(), "/cwd/local.wasm");
}

#[test]
fn container_success_returns_the_artifact() {
    let (mut orch, _) = Orchestrator::start(options(Some("/p")), IMAGE.to_string());
    let a = orch.step(Event::ContainerExited { success: true });
    match a {
        Action::ListDirectory(d) => assert_eq!(d, "/p/target/near"),
        other => panic!("expected a listing, got {:?}", other),
    }
    let b = orch.step(Event::DirectoryListed(vec![
        file("/p/target/near/contract_abi.json"),
        file("/p/target/near/contract.wasm"),
    ]));
    assert_eq!(finished_with(b).unwrap(), "/p/target/near/contract.wasm");
}

#[test]
fn container_success_empty_dir_is_not_found() {
    let (mut orch, _) = Orchestrator::start(options(Some("/p")), IMAGE.to_string());
    orch.step(Event::ContainerExited { success: true });
    let r = finished_with(orch.step(Event::DirectoryListed(vec![])));
    assert!(matches!(r, Err(BuildError::ArtifactNotFound { dir }) if dir == "/p/target/near"));
}

#[test]
fn container_success_missing_dir_is_unreadable() {
    let (mut orch, _) = Orchestrator::start(options(Some("/p")), IMAGE.to_string());
    orch.step(Event::ContainerExited { success: true });
    let r = finished_with(orch.step(Event::DirectoryUnreadable { cause: "not found".to_string() }));
    assert!(matches!(r, Err(BuildError::DirectoryUnreadable { dir, cause })
        if dir == "/p/target/near" && cause == "not found"));
}

#[test]
fn unreadable_working_dir_fails() {
    let (mut orch, first) = Orchestrator::start(options(None), IMAGE.to_string());
    assert!(matches!(first, Action::ReadCurrentDir));
    let r = finished_with(orch.step(Event::CurrentDir(PathReading::Unavailable("gone".to_string()))));
    assert!(matches!(r, Err(BuildError::WorkingDirUnavailable { cause }) if cause == "gone"));
}

#[test]
fn non_utf8_working_dir_fails() {
    let (mut orch, _) = Orchestrator::start(options(None), IMAGE.to_string());
    let r = finished_with(orch.step(Event::CurrentDir(PathReading::NotUtf8("/\u{FFFD}".to_string()))));
    assert!(matches!(r, Err(BuildError::PathConversionFailure { raw }) if raw == "/\u{FFFD}"));
}

#[test]
fn repeated_fallback_runs_agree() {
    let mut results = Vec::new();
    for _ in 0..2 {
        let (mut orch, _) = Orchestrator::start(options(Some("/p")), IMAGE.to_string());
        orch.step(Event::ContainerLaunchFailed);
        results.push(finished_with(orch.step(local_ok("/p/target/near/c.wasm"))).unwrap());
    }
    assert_eq!(results[0], results[1]);
}

#[test]
fn absent_runtime_warns_and_returns_local_artifact() {
    let (mut orch, first) = Orchestrator::start(options(Some("/p")), IMAGE.to_string());
    assert!(matches!(first, Action::LaunchContainer(_)));
    let a = orch.step(Event::ContainerLaunchFailed);
    assert!(matches!(a, Action::WarnAndRunLocal));
    assert!(fallback_warning().contains("without SourceScan verification"));
    assert!(matches!(orch.phase, Phase::FallenBackToLocal));
    let r = finished_with(orch.step(local_ok("/p/target/near/local.wasm")));
    assert_eq!(r.unwrap(), "/p/target/near/local.wasm");
}

#[test]
fn finished_run_ignores_events() {
    let (mut orch, _) = Orchestrator::start(options(Some("/p")), IMAGE.to_string());
    orch.step(Event::ContainerLaunchFailed);
    orch.step(local_ok("/p/a.wasm"));
    assert!(matches!(orch.step(local_ok("/p/b.wasm")), Action::Ignore));
    assert!(orch.is_finished());
}
