//! Making, removing and cleaning snapshots.

use microsandbox_network::policy::Action;
use sodagun::commands::build_plan::build_plan;
use sodagun::commands::launch::BootSource;
use sodagun::commands::snapshot::{
    advance, asset_path, build_boot_source, clean_lines, clean_list_error, clean_note, clean_repo,
    clean_target, create_message, ephemeral_name, ephemeral_name_as, remove_result, resources_note,
    script_path, snapshot_build_resources, snapshot_config_path, snapshot_labels,
    snapshot_to_create, snapshot_to_remove, BuildEvent, BuildNames, BuildNext, BuildNote,
    BuildStep, CleanRun, FoundSnapshot,
};
use sodagun::config::{default_image_config, ImageConfig, SetupFile};
use sodagun::table::Table;
use sodagun::util::{RuntimeError, RuntimeErrorKind};

fn image(script: Option<&str>) -> ImageConfig {
    let mut image = default_image_config();
    image.setup_script = script.map(str::to_string);
    image
}

#[test]
fn config_beside_the_project() {
    assert_eq!(snapshot_config_path(None, "/p"), "/p/sodagun.toml");
    assert_eq!(snapshot_config_path(Some("/c.toml"), "/p"), "/c.toml");
}

#[test]
fn only_setups_are_snapshotted() {
    assert_eq!(
        snapshot_to_create(&image(Some("#!/bin/sh\n"))).unwrap(),
        "alpine-latest_qAdtPSjSHgIB"
    );
    assert_eq!(
        snapshot_to_remove(&image(Some("#!/bin/sh\n"))).unwrap(),
        "alpine-latest_qAdtPSjSHgIB"
    );
    let err = snapshot_to_create(&image(None)).unwrap_err();
    assert_eq!(err.code, "CONFIG_INVALID");
    assert_eq!(
        err.message,
        "no setup_script or setup_script_path in [image] — nothing to snapshot"
    );
    let err = snapshot_to_remove(&image(None)).unwrap_err();
    assert_eq!(err.message, "no setup_script or setup_script_path in [image] — nothing to remove");
}

#[test]
fn build_resources() {
    assert_eq!(snapshot_build_resources(16 * 1024 * 1024 * 1024, Some(8)), (8192, 6));
    assert_eq!(snapshot_build_resources(0, None), (0, 1));
    assert_eq!(snapshot_build_resources(3 * 1024 * 1024, Some(2)), (1, 1));
    assert_eq!(snapshot_build_resources(0, Some(257)), (0, 255));
    assert_eq!(
        snapshot_build_resources(u64::MAX, Some(258)),
        ((u64::MAX / 1_048_576 / 2) as u32, 255)
    );
    assert_eq!(snapshot_build_resources(0, Some(usize::MAX)).1, 255);
    assert_eq!(resources_note(8192, 6), "snapshot build resources: 8192 MiB RAM, 6 CPUs");
}

#[test]
fn builds_boot_from_the_base() {
    let mut i = image(Some("x"));
    assert!(matches!(build_boot_source(&i), BootSource::Image(s) if s == "alpine:latest"));
    i.base_image = None;
    assert!(matches!(build_boot_source(&i), BootSource::Unset));
    i.base_snapshot = Some("b".to_string());
    assert!(matches!(build_boot_source(&i), BootSource::Snapshot(s) if s == "b"));
}

#[test]
fn plan_of_a_build() {
    let mut i = image(Some("#!/bin/sh\n"));
    i.env.insert("HOME".to_string(), "/root".to_string());
    i.env.insert("A".to_string(), "b".to_string());
    let file = SetupFile { name: "Cargo.lock".to_string(), content: vec![1, 2, 3] };
    i.setup_files.push(file);
    let plan = build_plan(&i, "#!/bin/sh\n", "sodagun-snap-01234567", 8192, 6);
    assert_eq!(plan.name, "sodagun-snap-01234567");
    assert!(matches!(&plan.boot, BootSource::Image(s) if s == "alpine:latest"));
    assert_eq!((plan.memory_mb, plan.cpus), (8192, 6));
    assert!(matches!(plan.network.default_egress, Action::Allow));
    assert!(matches!(plan.network.default_ingress, Action::Allow));
    assert!(plan.network.rules.is_empty());
    assert_eq!((plan.tmp_dir, plan.tmp_mb), ("/tmp", 8192));
    let pair = |k: &str, v: &str| (k.to_string(), v.to_string());
    assert_eq!(plan.env, vec![pair("HOME", "/root"), pair("A", "b")]);
    assert_eq!(plan.script_path, "/setup-assets/_setup");
    assert_eq!((plan.script.as_str(), plan.script_mode), ("#!/bin/sh\n", 0o755));
    assert_eq!(plan.files.len(), 1);
    assert_eq!(plan.files[0].path, "/setup-assets/Cargo.lock");
    assert_eq!(plan.files[0].content, [1, 2, 3]);
}

#[test]
fn names_in_the_guest() {
    assert_eq!(script_path(), "/setup-assets/_setup");
    assert_eq!(asset_path("Cargo.lock"), "/setup-assets/Cargo.lock");
    assert_eq!(ephemeral_name_as("01234567"), "sodagun-snap-01234567");
    let name = ephemeral_name();
    assert_eq!(name.len(), "sodagun-snap-".len() + 8);
    assert!(name["sodagun-snap-".len()..].chars().all(|c| c.is_ascii_hexdigit()));
    assert_ne!(name, ephemeral_name());
}

fn labels_of(name: &str) -> Vec<(&'static str, String)> {
    snapshot_labels(name, "/repo", &image(Some("x")))
}

#[test]
fn labels() {
    let expected = vec![
        ("created_by", "sodagun".to_string()),
        ("repo_path", "/repo".to_string()),
        ("setup_hash", "qAdtPSjSHgIB".to_string()),
        ("source_image", "alpine:latest".to_string()),
    ];
    assert_eq!(labels_of("alpine-latest_qAdtPSjSHgIB"), expected);
    assert_eq!(labels_of("plain")[2].1, "");
}

#[test]
fn label_of_a_hash_with_a_separator() {
    let name = snapshot_to_create(&image(Some("#!/bin/sh\necho 2\n"))).unwrap();
    assert_eq!(name, "alpine-latest__qrpRNimV8F7");
    assert_eq!(labels_of(&name)[2].1, "_qrpRNimV8F7");
    let name = snapshot_to_create(&image(Some("1"))).unwrap();
    assert_eq!(name, "alpine-latest_a4ayc_80_OGd");
    assert_eq!(labels_of(&name)[2].1, "a4ayc_80_OGd");
    let tag = &name["alpine-latest_".len()..];
    assert_eq!(tag.len(), 12);
    assert!(tag.chars().all(|c| c.is_ascii_alphanumeric() || c == '-' || c == '_'));
}

// ── Making ───────────────────────────────────────────────────────────────────

fn names() -> BuildNames {
    BuildNames { snapshot: "snap".to_string(), sandbox: "box".to_string() }
}

fn next(force: bool, step: BuildStep, event: BuildEvent) -> BuildNext {
    advance(&names(), force, step, &event).0
}

fn leads_to(step: BuildStep, event: BuildEvent, expected: BuildStep) {
    match next(true, step, event) {
        BuildNext::Do(s) => assert_eq!(s, expected),
        _ => panic!("{step:?} ends"),
    }
}

#[test]
fn a_build_that_works() {
    leads_to(BuildStep::Look, BuildEvent::NotFound, BuildStep::Boot);
    leads_to(BuildStep::Look, BuildEvent::Done, BuildStep::RemoveOld);
    leads_to(BuildStep::RemoveOld, BuildEvent::Done, BuildStep::Boot);
    leads_to(BuildStep::Boot, BuildEvent::Done, BuildStep::RunScript);
    leads_to(BuildStep::RunScript, BuildEvent::Done, BuildStep::Watch);
    leads_to(BuildStep::Watch, BuildEvent::Output(b"x\n".to_vec()), BuildStep::Watch);
    leads_to(BuildStep::Watch, BuildEvent::Other, BuildStep::Watch);
    leads_to(BuildStep::Watch, BuildEvent::Exited(0), BuildStep::Flush);
    leads_to(BuildStep::Flush, BuildEvent::Failed("e".to_string()), BuildStep::Stop);
    leads_to(BuildStep::Stop, BuildEvent::Done, BuildStep::Save);
    leads_to(BuildStep::Save, BuildEvent::Done, BuildStep::CleanUp);
    assert!(matches!(
        next(false, BuildStep::CleanUp, BuildEvent::Failed("e".to_string())),
        BuildNext::Created
    ));
    assert!(matches!(next(false, BuildStep::Look, BuildEvent::Done), BuildNext::AlreadyExists));
}

fn aborts(step: BuildStep, event: BuildEvent, message: &str, remove: bool) {
    match next(true, step, event) {
        BuildNext::Abort { error, remove_sandbox } => {
            assert_eq!((error.code, error.message.as_str()), ("SNAPSHOT_ERROR", message));
            assert_eq!(remove_sandbox, remove);
        }
        _ => panic!("{step:?} goes on"),
    }
}

#[test]
fn builds_that_fail() {
    let failed = || BuildEvent::Failed("e".to_string());
    aborts(BuildStep::Look, failed(), "failed to check for existing snapshot: e", false);
    aborts(BuildStep::RemoveOld, failed(), "failed to remove existing snapshot 'snap': e", false);
    aborts(BuildStep::Boot, failed(), "failed to create ephemeral sandbox: e", false);
    aborts(BuildStep::RunScript, failed(), "setup script failed to execute: e", false);
    aborts(BuildStep::Watch, failed(), "setup script failed to spawn: e", true);
    aborts(
        BuildStep::Watch,
        BuildEvent::Ended,
        "setup script exec session ended without exit event",
        true,
    );
    aborts(
        BuildStep::Watch,
        BuildEvent::Exited(-3),
        "setup script exited with non-zero status (code -3)",
        true,
    );
    aborts(
        BuildStep::Watch,
        BuildEvent::Exited(i32::MIN),
        "setup script exited with non-zero status (code -2147483648)",
        true,
    );
    aborts(BuildStep::Stop, failed(), "failed to stop ephemeral sandbox: e", false);
    aborts(BuildStep::Save, failed(), "failed to create snapshot: e", false);
}

#[test]
fn build_notes() {
    let note = |step, event| advance(&names(), false, step, &event).1;
    assert!(matches!(
        note(BuildStep::Watch, BuildEvent::Output(b"a\xff\n\n".to_vec())),
        Some(BuildNote::Log(s)) if s == "a\u{fffd}"
    ));
    assert!(matches!(
        note(BuildStep::Flush, BuildEvent::Failed("e".to_string())),
        Some(BuildNote::Warn(s)) if s == "sync before snapshot failed (continuing): e"
    ));
    assert!(matches!(
        note(BuildStep::CleanUp, BuildEvent::Failed("e".to_string())),
        Some(BuildNote::Warn(s)) if s == "failed to remove ephemeral sandbox 'box': e"
    ));
    assert!(note(BuildStep::Boot, BuildEvent::Done).is_none());
}

#[test]
fn messages() {
    assert_eq!(create_message("n", true), "Snapshot already exists: n");
    assert_eq!(create_message("n", false), "Created snapshot: n");
    assert_eq!(clean_note("n"), "removing snapshot: n");
    let err = clean_list_error("e");
    assert_eq!((err.code, err.message.as_str()), ("SNAPSHOT_ERROR", "failed to list snapshots: e"));
}

// ── Removing and cleaning ────────────────────────────────────────────────────

#[test]
fn removal() {
    let e = |kind| Err(RuntimeError { kind, text: "boom".to_string() });
    assert!(remove_result(&Ok(()), false, "n").is_ok());
    assert!(remove_result(&e(RuntimeErrorKind::SnapshotNotFound), true, "n").is_ok());
    let err = remove_result(&e(RuntimeErrorKind::SnapshotNotFound), false, "n").unwrap_err();
    assert_eq!((err.code, err.message.as_str()), ("SNAPSHOT_NOT_FOUND", "snapshot 'n' not found"));
    let err = remove_result(&e(RuntimeErrorKind::Other), true, "n").unwrap_err();
    assert_eq!((err.code, err.message.as_str()), ("SNAPSHOT_ERROR", "boom"));
}

#[test]
fn clean_finds_what_create_made() {
    let mut found = Table::new();
    for (k, v) in labels_of("alpine-latest_qAdtPSjSHgIB") {
        found.insert(k.to_string(), v);
    }
    assert_eq!(clean_target(Some("n"), "d", Some(&found), "/repo").as_deref(), Some("n"));
    assert_eq!(clean_target(None, "d", Some(&found), "/repo").as_deref(), Some("d"));
    assert_eq!(clean_target(Some("n"), "d", Some(&found), "/other"), None);
    assert_eq!(clean_target(Some("n"), "d", None, "/repo"), None);
    found.insert("created_by".to_string(), "someone".to_string());
    assert_eq!(clean_target(Some("n"), "d", Some(&found), "/repo"), None);
}

fn snapshot(name: Option<&str>, digest: &str, repo: Option<&str>) -> FoundSnapshot {
    let labels = repo.map(|r| {
        let mut table = Table::new();
        for (k, v) in snapshot_labels("n", r, &image(Some("x"))) {
            table.insert(k.to_string(), v);
        }
        table
    });
    FoundSnapshot { name: name.map(str::to_string), digest: digest.to_string(), labels }
}

#[test]
fn a_clean_run_removes_what_was_made_for_the_repository() {
    let found = vec![
        snapshot(Some("a"), "d0", Some("/repo")),
        snapshot(Some("b"), "d1", Some("/other")),
        snapshot(None, "d2", Some("/repo")),
        snapshot(Some("c"), "d3", None),
    ];
    let mut run = CleanRun::new("/repo");
    let mut asked = vec![];
    for s in found {
        let (next, target) = run.look(s);
        run = match target {
            None => next,
            Some(id) => {
                asked.push(id);
                next.settle(Ok(())).unwrap()
            }
        };
    }
    assert_eq!(asked, ["a", "d2"]);
    assert_eq!(run.finish(), ["a", "d2"]);
    assert!(CleanRun::new("/repo").finish().is_empty());
}

#[test]
fn a_removal_that_fails_ends_a_clean_run() {
    let (run, target) = CleanRun::new("/repo").look(snapshot(Some("a"), "d0", Some("/repo")));
    assert_eq!(target.as_deref(), Some("a"));
    let e = RuntimeError { kind: RuntimeErrorKind::SnapshotNotFound, text: "gone".to_string() };
    match run.settle(Err(e)) {
        Err(e) => assert_eq!(e.code, "SNAPSHOT_NOT_FOUND"),
        Ok(_) => panic!("no error"),
    }
}

#[test]
fn clean_output() {
    assert_eq!(clean_lines(&vec![]), ["No snapshots to clean."]);
    let removed = vec!["a".to_string(), "b".to_string()];
    assert_eq!(clean_lines(&removed), ["Removed: a", "Removed: b"]);
    assert_eq!(clean_repo(Some("/r".to_string())).unwrap(), "/r");
    let err = clean_repo(None).unwrap_err();
    assert_eq!(
        (err.code, err.message.as_str()),
        ("CONFIG_INVALID", "cannot canonicalize project directory")
    );
}
