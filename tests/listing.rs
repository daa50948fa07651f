use moldock_jobs::paths::{
    check_open_path, opener_command, progress_file, python_candidates, starts_with_components,
    OpenError, Platform,
};
use moldock_jobs::preview::preview_rows;
use moldock_jobs::projects::{
    collect_projects, distinct_projects, sort_by_name, text_less, to_ascii_lower, ProjectItem,
};

fn item(name: &str, path: &str, source: &str) -> ProjectItem {
    ProjectItem { name: name.to_string(), path: path.to_string(), source: source.to_string() }
}

fn strings(items: &[&str]) -> Vec<String> {
    items.iter().map(|s| s.to_string()).collect()
}

#[test]
fn lower_case_ascii_only() {
    assert_eq!(to_ascii_lower("C:/Proj/ÄB"), "c:/proj/Äb");
    assert_eq!(to_ascii_lower(""), "");
}

#[test]
fn text_order() {
    assert!(text_less("a", "b"));
    assert!(text_less("ab", "abc"));
    assert!(!text_less("abc", "ab"));
    assert!(!text_less("same", "same"));
    assert!(text_less("", "x"));
    assert!(text_less("Zeta", "alpha"));
}

#[test]
fn repeated_paths_are_listed_once() {
    let found = vec![
        item("beta", "C:\\Repo\\projects\\Beta", "repo projects"),
        item("beta", "c:/repo/projects/beta", "Documents"),
        item("alpha", "D:\\docs\\alpha", "Documents"),
    ];
    let out = distinct_projects(found);
    assert_eq!(out.len(), 2);
    assert_eq!(out[0].path, "C:/Repo/projects/Beta");
    assert_eq!(out[0].source, "repo projects");
    assert_eq!(out[1].name, "alpha");
}

#[test]
fn projects_sorted_by_name() {
    let found = vec![
        item("gamma", "/g", "a"),
        item("alpha", "/a", "a"),
        item("beta", "/b1", "a"),
        item("beta", "/b2", "b"),
    ];
    let out = sort_by_name(found);
    let names: Vec<&str> = out.iter().map(|p| p.name.as_str()).collect();
    assert_eq!(names, vec!["alpha", "beta", "beta", "gamma"]);
    assert_eq!(out[1].path, "/b1");
    assert_eq!(out[2].path, "/b2");
}

#[test]
fn collected_projects() {
    let found = vec![
        item("zeta", "X:\\Z", "repo projects"),
        item("eta", "X:\\E", "repo projects"),
        item("zeta", "x:/z", "Documents"),
    ];
    let out = collect_projects(found);
    assert_eq!(out.len(), 2);
    assert_eq!(out[0].name, "eta");
    assert_eq!(out[0].path, "X:/E");
    assert_eq!(out[1].name, "zeta");
    assert_eq!(out[1].source, "repo projects");
    assert!(collect_projects(vec![]).is_empty());
}

#[test]
fn interpreter_candidates() {
    let c = python_candidates(Some("C:/conda"), Some("C:/Users/me"));
    assert_eq!(c.len(), 25);
    assert_eq!(c[0], strings(&["C:/conda", "python.exe"]));
    assert_eq!(c[1], strings(&["C:/Users/me", "Miniconda3", "envs", "moldockpipe", "python.exe"]));
    assert_eq!(c[3], strings(&["C:/Users/me", "Miniconda3", "envs", "base", "python.exe"]));
    assert_eq!(c[24], strings(&["C:/Users/me", "miniforge3", "envs", "base", "python.exe"]));
    let c = python_candidates(None, Some("H"));
    assert_eq!(c.len(), 24);
    assert_eq!(c[4], strings(&["H", "miniconda3", "envs", "molDockPipe", "python.exe"]));
    assert_eq!(python_candidates(Some("P"), None).len(), 1);
    assert!(python_candidates(None, None).is_empty());
}

#[test]
fn progress_file_stays_in_project() {
    let root = strings(&["C:", "p"]);
    let file = progress_file(&root);
    assert_eq!(file, strings(&["C:", "p", "state", "progress.json"]));
    assert!(starts_with_components(&file[..3].to_vec(), &root));
    assert!(!starts_with_components(&strings(&["C:", "q", "state"]), &root));
    assert!(!starts_with_components(&strings(&["C:"]), &root));
}

#[test]
fn preview_takes_readable_rows() {
    let records = vec![
        Some(strings(&["1", "a"])),
        None,
        Some(strings(&["2", "b"])),
        Some(strings(&["3", "c"])),
    ];
    let rows = preview_rows(records.clone(), 3);
    assert_eq!(rows, vec![strings(&["1", "a"]), strings(&["2", "b"])]);
    assert_eq!(preview_rows(records.clone(), 10).len(), 3);
    assert!(preview_rows(records, 0).is_empty());
}

#[test]
fn file_browser_commands() {
    let (p, a) = opener_command(Platform::Windows, true, "C:\\p\\f.csv");
    assert_eq!(p, "explorer");
    assert_eq!(a, strings(&["/select,", "C:\\p\\f.csv"]));
    let (p, a) = opener_command(Platform::Windows, false, "C:\\p");
    assert_eq!(p, "explorer");
    assert_eq!(a, strings(&["C:\\p"]));
    let (p, a) = opener_command(Platform::MacOs, true, "/p/f");
    assert_eq!(p, "open");
    assert_eq!(a, strings(&["/p/f"]));
    let (p, _) = opener_command(Platform::Other, false, "/p");
    assert_eq!(p, "xdg-open");
    assert_eq!(check_open_path("  "), Err(OpenError::NoPath));
    assert_eq!(check_open_path(""), Err(OpenError::NoPath));
    assert_eq!(check_open_path("/p"), Ok(()));
}
