use moldock_jobs::launch::{
    choose_interpreter, is_run_command, merge_search_path, plan_launch, repo_root_level,
    resolve_project_dir_from_args, run_result, watcher_args, worker_args, LaunchError, LaunchTarget,
};
use moldock_jobs::paths::Platform;
use moldock_jobs::signal::blank;
use moldock_jobs::text::{normalize_path_case, same_text, trimmed};

fn strings(items: &[&str]) -> Vec<String> {
    items.iter().map(|s| s.to_string()).collect()
}

#[test]
fn backslashes_become_slashes() {
    assert_eq!(normalize_path_case("C:\\Users\\me\\proj"), "C:/Users/me/proj");
    assert_eq!(normalize_path_case("a/b"), "a/b");
    assert_eq!(normalize_path_case(""), "");
}

#[test]
fn trimming() {
    assert_eq!(trimmed("  a b \n"), "a b");
    assert_eq!(trimmed("   "), "");
    assert_eq!(trimmed("x"), "x");
    assert_eq!(trimmed("\u{3000}x\u{a0}"), "x");
    assert!(blank(""));
    assert!(blank(" \t\r\n"));
    assert!(!blank(" a "));
    assert!(same_text("run", "run"));
    assert!(!same_text("run", "runs"));
}

#[test]
fn project_dir_resolution() {
    let cwd = "D:/work".to_string();
    assert_eq!(
        resolve_project_dir_from_args(&strings(&["run", "  C:/p  "]), Some(&cwd)),
        Some("C:/p".to_string())
    );
    assert_eq!(
        resolve_project_dir_from_args(&strings(&["run", "--resume"]), Some(&cwd)),
        Some("D:/work".to_string())
    );
    assert_eq!(resolve_project_dir_from_args(&strings(&["run", "  "]), None), None);
    assert_eq!(
        resolve_project_dir_from_args(&strings(&["status", "C:/p"]), Some(&cwd)),
        Some("D:/work".to_string())
    );
    assert_eq!(resolve_project_dir_from_args(&strings(&["run"]), None), None);
}

#[test]
fn run_without_project_is_rejected() {
    let r = plan_launch(&strings(&["run", "-x"]), None, None, 3);
    assert!(matches!(r, Err(LaunchError::ProjectUnresolved)));
    let msg = LaunchError::ProjectUnresolved.message();
    assert_eq!(msg, "Unable to resolve project directory for run command.");
}

#[test]
fn interpreter_choice() {
    assert_eq!(choose_interpreter(None), "python");
    assert_eq!(choose_interpreter(Some("  ".to_string())), "python");
    assert_eq!(choose_interpreter(Some("C:/py/python.exe".to_string())), "C:/py/python.exe");
}

#[test]
fn search_path_merge() {
    assert_eq!(merge_search_path(Platform::Windows, "C:/repo", None), "C:/repo");
    assert_eq!(merge_search_path(Platform::Other, "/repo", Some(" ")), "/repo");
    assert_eq!(merge_search_path(Platform::Windows, "C:/repo", Some("C:/lib")), "C:/repo;C:/lib");
    assert_eq!(merge_search_path(Platform::Other, "/repo", Some("/lib")), "/repo:/lib");
    assert_eq!(merge_search_path(Platform::MacOs, "/repo", Some("/lib")), "/repo:/lib");
}

#[test]
fn argument_lists() {
    assert!(is_run_command(&strings(&["run", "p"])));
    assert!(!is_run_command(&strings(&[])));
    assert!(!is_run_command(&strings(&["runner"])));
    assert_eq!(
        worker_args(&strings(&["run", "p", "--fast"])),
        strings(&["-m", "moldockpipe.cli", "run", "p", "--fast"])
    );
    assert_eq!(
        watcher_args("C:/p", 12),
        strings(&[
            "-m",
            "moldockpipe.progress_watcher",
            "--project",
            "C:/p",
            "--run-id",
            "watch_12",
            "--interval-ms",
            "700"
        ])
    );
}

#[test]
fn paired_plan_contents() {
    let plan = plan_launch(
        &strings(&["run", "C:/p"]),
        Some("D:/w".to_string()),
        Some("py".to_string()),
        5,
    )
    .ok()
    .unwrap();
    assert_eq!(plan.interpreter, "py");
    assert_eq!(plan.worker_dir, Some("D:/w".to_string()));
    assert_eq!(plan.worker_args, strings(&["-m", "moldockpipe.cli", "run", "C:/p"]));
    let w = plan.watcher.unwrap();
    assert_eq!(w.project_dir, "C:/p");
    assert_eq!(w.args[5], "watch_5");
}

#[test]
fn watcher_failure_message() {
    let err = LaunchError::LaunchFailure { target: LaunchTarget::Watcher, detail: "x".to_string() };
    assert_eq!(
        err.message(),
        "Could not launch Python progress watcher. Verify Python path and module availability (moldockpipe.progress_watcher). Details: x"
    );
}

#[test]
fn repo_root_search() {
    assert_eq!(repo_root_level(&vec![false, false, true, true]), Some(2));
    assert_eq!(repo_root_level(&vec![false; 6]), None);
    assert_eq!(repo_root_level(&vec![false, false, false, false, false, false, true]), None);
    assert_eq!(repo_root_level(&vec![]), None);
}

#[test]
fn blocking_run_result() {
    let r = run_result(Some(0), "out".to_string(), "".to_string());
    assert!(r.ok);
    assert_eq!(r.code, 0);
    assert_eq!(r.stdout, "out");
    let r = run_result(None, "".to_string(), "err".to_string());
    assert!(!r.ok);
    assert_eq!(r.code, 1);
    assert_eq!(r.stderr, "err");
    let r = run_result(Some(3), "".to_string(), "".to_string());
    assert!(!r.ok);
    assert_eq!(r.code, 3);
}
