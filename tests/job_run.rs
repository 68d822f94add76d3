use delivery::change::{change_record, JobNames, clone_source, needs_local_head, resolve_change, with_default, RunOptions};
use delivery::docker::{delegates_to_container, docker_args, LineRelay};
use delivery::error::JobError;
use delivery::job::{
    advance, exit_code, privilege_policy, runs_default_phase, start, step_privilege, JobState, JobStep,
    Privilege,
};
use delivery::workspace::{locate, phase_dir, workspace_base, WorkspaceKey};

fn empty_opts() -> RunOptions {
    RunOptions {
        stage: String::new(),
        phases: String::new(),
        change: String::new(),
        pipeline: String::new(),
        job_root: String::new(),
        project: String::new(),
        user: String::new(),
        server: String::new(),
        ent: String::new(),
        org: String::new(),
        patchset: String::new(),
        change_id: String::new(),
        git_url: String::new(),
        shasum: String::new(),
        branch: String::new(),
        docker_image: String::new(),
        skip_default: false,
        local: false,
    }
}

fn key(stage: &str, phases: &str) -> WorkspaceKey {
    WorkspaceKey {
        server: "srv".to_string(),
        ent: "ent".to_string(),
        org: "org".to_string(),
        project: "proj".to_string(),
        pipeline: "master".to_string(),
        stage: stage.to_string(),
        phases: phases.to_string(),
    }
}

/// Runs the state machine with every step succeeding; returns the steps taken.
fn steps_taken(privileged: bool, skip_default: bool) -> (Vec<JobStep>, JobState) {
    let mut st = start();
    let mut steps = Vec::new();
    while let JobState::Running(step) = st {
        steps.push(step);
        st = advance(st, true, privileged, skip_default);
    }
    (steps, st)
}

#[test]
fn branch_wins_over_other_selectors() {
    let mut o = empty_opts();
    o.branch = "feature-x".to_string();
    o.change = "abc".to_string();
    o.shasum = "deadbeef".to_string();
    let rc = resolve_change(&o, "master", Err(JobError::VcsLookupFailed)).unwrap();
    assert_eq!(rc.reference, "feature-x");
    assert!(!rc.is_local);
    assert_eq!(rc.patchset, "latest");
}

#[test]
fn review_change_reference() {
    let mut o = empty_opts();
    o.change = "c0ffee".to_string();
    let rc = resolve_change(&o, "master", Ok(String::new())).unwrap();
    assert_eq!(rc.reference, "_reviews/master/c0ffee/latest");
    assert!(!rc.is_local);
    o.patchset = "3".to_string();
    let rc = resolve_change(&o, "master", Ok(String::new())).unwrap();
    assert_eq!(rc.reference, "_reviews/master/c0ffee/3");
    assert_eq!(rc.patchset, "3");
}

#[test]
fn shasum_gives_empty_reference() {
    let mut o = empty_opts();
    o.shasum = "deadbeef".to_string();
    assert!(!needs_local_head(&o));
    let rc = resolve_change(&o, "master", Err(JobError::VcsLookupFailed)).unwrap();
    assert_eq!(rc.reference, "");
    assert!(!rc.is_local);
}

#[test]
fn local_head_used_without_selectors() {
    let o = empty_opts();
    assert!(needs_local_head(&o));
    let rc = resolve_change(&o, "master", Ok("abc123".to_string())).unwrap();
    assert_eq!(rc.reference, "abc123");
    assert!(rc.is_local);
    let e = resolve_change(&o, "master", Err(JobError::VcsLookupFailed));
    assert_eq!(e.err(), Some(JobError::VcsLookupFailed));
}

#[test]
fn clone_source_rules() {
    let mut o = empty_opts();
    let local = resolve_change(&o, "p", Ok("abc123".to_string())).unwrap();
    assert_eq!(clone_source(&o, &local, "/work/proj", Err(JobError::ConfigIncomplete)).unwrap(), "/work/proj");
    o.branch = "b".to_string();
    let remote = resolve_change(&o, "p", Ok(String::new())).unwrap();
    assert_eq!(clone_source(&o, &remote, "/work", Ok("ssh://srv/p".to_string())).unwrap(), "ssh://srv/p");
    assert_eq!(clone_source(&o, &remote, "/work", Err(JobError::ConfigIncomplete)).err(), Some(JobError::ConfigIncomplete));
    o.git_url = "file:///repo".to_string();
    assert_eq!(clone_source(&o, &remote, "/work", Err(JobError::ConfigIncomplete)).unwrap(), "file:///repo");
}

#[test]
fn defaults_only_for_local_runs() {
    assert_eq!(with_default("", "you", &true), "you");
    assert_eq!(with_default("me", "you", &true), "me");
    assert_eq!(with_default("", "you", &false), "");
}

#[test]
fn workspace_paths() {
    assert_eq!(workspace_base("/home/u", false), "/home/u/.delivery");
    assert_eq!(workspace_base("/var/opt/delivery/workspace", true), "/var/opt/delivery/workspace");
    assert_eq!(phase_dir("lint unit syntax"), "lint-unit-syntax");
    let home = Some("/home/u".to_string());
    let p = locate(&home, false, "", &key("verify", "lint unit")).unwrap();
    assert_eq!(p, "/home/u/.delivery/srv/ent/org/proj/master/verify/lint-unit");
    let again = locate(&home, false, "", &key("verify", "lint unit")).unwrap();
    assert_eq!(p, again);
    let other = locate(&home, false, "", &key("build", "lint unit")).unwrap();
    assert_ne!(p, other);
    let root = locate(&home, true, "", &key("verify", "lint unit")).unwrap();
    assert_eq!(root, "/home/u/srv/ent/org/proj/master/verify/lint-unit");
    assert_eq!(locate(&None, false, "", &key("verify", "lint")).err(), Some(JobError::NoHomeDirectory));
    assert_eq!(locate(&None, false, "/jobs/x", &key("verify", "lint")).unwrap(), "/jobs/x");
}

#[test]
fn privilege_policy_and_default_phase() {
    assert_eq!(privilege_policy(true), Privilege::Drop);
    assert_eq!(privilege_policy(false), Privilege::NoDrop);
    assert_eq!(step_privilege(JobStep::RunDefaultPhase, true), Privilege::NoDrop);
    assert_eq!(step_privilege(JobStep::RunPhases, true), Privilege::Drop);
    assert_eq!(step_privilege(JobStep::RunPhases, false), Privilege::NoDrop);
    assert!(runs_default_phase(true, false));
    assert!(!runs_default_phase(true, true));
    assert!(!runs_default_phase(false, false));
}

#[test]
fn branch_build_as_non_root() {
    let mut o = empty_opts();
    o.branch = "feature-x".to_string();
    o.stage = "verify".to_string();
    o.phases = "lint unit".to_string();
    let rc = resolve_change(&o, "master", Err(JobError::VcsLookupFailed)).unwrap();
    assert_eq!(rc.reference, "feature-x");
    let p = locate(&Some("/home/u".to_string()), false, "", &key(&o.stage, &o.phases)).unwrap();
    assert!(p.contains("/verify/"));
    assert!(p.ends_with("/lint-unit"));
    let (steps, end) = steps_taken(false, o.skip_default);
    assert!(!steps.contains(&JobStep::RunDefaultPhase));
    assert_eq!(*steps.last().unwrap(), JobStep::RunPhases);
    assert_eq!(step_privilege(JobStep::RunPhases, false), Privilege::NoDrop);
    assert_eq!(exit_code(end), Some(0));
}

#[test]
fn local_head_build_as_root_skipping_default() {
    let mut o = empty_opts();
    o.local = true;
    o.skip_default = true;
    let rc = resolve_change(&o, "master", Ok("abc123".to_string())).unwrap();
    assert_eq!(rc.reference, "abc123");
    assert!(rc.is_local);
    assert_eq!(clone_source(&o, &rc, "/work/proj", Err(JobError::ConfigIncomplete)).unwrap(), "/work/proj");
    let (steps, end) = steps_taken(true, o.skip_default);
    assert!(!steps.contains(&JobStep::RunDefaultPhase));
    assert_eq!(step_privilege(JobStep::RunPhases, true), Privilege::Drop);
    assert_eq!(exit_code(end), Some(0));
}

#[test]
fn root_build_runs_default_phase_first() {
    let (steps, _) = steps_taken(true, false);
    assert_eq!(
        steps,
        vec![
            JobStep::BuildWorkspace,
            JobStep::SetupRepo,
            JobStep::PurgeBuildCookbook,
            JobStep::SetupChef,
            JobStep::RunDefaultPhase,
            JobStep::RunPhases,
        ]
    );
}

#[test]
fn failure_stops_the_run() {
    let st = advance(start(), false, true, false);
    assert_eq!(st, JobState::Failed);
    assert_eq!(advance(st, true, true, false), JobState::Failed);
    assert_eq!(exit_code(st), Some(1));
    assert_eq!(exit_code(start()), None);
}

#[test]
fn container_delegation_args() {
    let mut o = empty_opts();
    o.docker_image = "ci-image".to_string();
    o.stage = "verify".to_string();
    o.phases = "lint unit".to_string();
    o.branch = "feature-x".to_string();
    o.server = "srv".to_string();
    o.local = true;
    let args = docker_args(&o, "/work");
    let expected: Vec<String> = [
        "run", "-t", "-i", "-v", "/work:/work", "-w", "/work", "--dns", "8.8.8.8", "ci-image", "delivery",
        "job", "verify", "lint unit", "--server", "srv", "--branch", "feature-x", "--local",
    ]
    .iter()
    .map(|x| x.to_string())
    .collect();
    assert_eq!(args, expected);
}

#[test]
fn relay_holds_partial_lines() {
    let mut r = LineRelay::new();
    assert_eq!(r.push(b'h'), None);
    assert_eq!(r.push(b'i'), None);
    assert_eq!(r.pending(), &b"hi".to_vec());
    assert_eq!(r.push(b'\n'), Some(b"hi\n".to_vec()));
    assert!(r.pending().is_empty());
    assert_eq!(r.push(b'\n'), Some(b"\n".to_vec()));
}

#[test]
fn error_messages() {
    assert_eq!(JobError::ContainerSpawnFailed.message(), "failed to execute container");
    assert_eq!(JobError::NoHomeDirectory.message(), "unable to find home dir");
}

#[test]
fn change_record_fields() {
    let mut o = empty_opts();
    o.stage = "verify".to_string();
    o.phases = "unit".to_string();
    o.change = "c1".to_string();
    o.change_id = "id-9".to_string();
    let names = JobNames {
        enterprise: "e".to_string(),
        organization: "o".to_string(),
        project: "p".to_string(),
        pipeline: "master".to_string(),
    };
    let rc = resolve_change(&o, "master", Ok(String::new())).unwrap();
    let r = change_record(&o, &names, &rc, "ssh://x");
    assert_eq!(r.patchset_branch, "_reviews/master/c1/latest");
    assert_eq!(r.patchset_number, "latest");
    assert_eq!(r.change_id, "id-9");
    assert_eq!(r.git_url, "ssh://x");
    assert_eq!(r.stage, "verify");
}

#[test]
fn container_only_with_image() {
    let mut o = empty_opts();
    assert!(!delegates_to_container(&o));
    o.docker_image = "ci-image".to_string();
    assert!(delegates_to_container(&o));
}
