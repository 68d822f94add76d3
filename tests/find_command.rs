use delivery::command::{command_candidates, find_command, has_extension};

fn s(v: &[&str]) -> Vec<String> {
    v.iter().map(|x| x.to_string()).collect()
}

fn path_dirs() -> Vec<String> {
    s(&["/usr/bin", "/work/tests/fixtures/bin"])
}

fn fixture_files() -> Vec<String> {
    s(&[
        "/usr/bin/ls",
        "/work/tests/fixtures/bin/bin_with_no_extension",
        "/work/tests/fixtures/bin/bin_with_extension.exe",
        "/work/tests/fixtures/bin/win95_dominator.bat",
        "/work/tests/fixtures/bin/plan.sh",
    ])
}

/// The fixture files as a case-insensitive file system finds them: under
/// either case of their extension.
fn windows_files() -> Vec<String> {
    let mut f = fixture_files();
    f.push("/work/tests/fixtures/bin/bin_with_extension.EXE".to_string());
    f.push("/work/tests/fixtures/bin/win95_dominator.BAT".to_string());
    f
}

fn pathext() -> Vec<String> {
    s(&[".COM", ".EXE"])
}

#[test]
fn command_exists() {
    let result = find_command("bin_with_no_extension", &path_dirs(), &Vec::new(), &fixture_files());
    assert_eq!(result.is_some(), true);
    let result = find_command("bin_with_extension.exe", &path_dirs(), &Vec::new(), &fixture_files());
    assert_eq!(result.is_some(), true);
}

#[test]
fn mod_command_exists() {
    let result = find_command("bin_with_no_extension", &path_dirs(), &pathext(), &windows_files());
    assert_eq!(result.is_some(), true);
    let result = find_command("bin_with_extension.exe", &path_dirs(), &pathext(), &windows_files());
    assert_eq!(result.is_some(), true);
}

#[test]
fn command_does_not_exist() {
    let result = find_command("missing", &path_dirs(), &Vec::new(), &fixture_files());
    assert_eq!(result.is_some(), false);
    let result = find_command("missing.com", &path_dirs(), &Vec::new(), &fixture_files());
    assert_eq!(result.is_some(), false);
}

#[test]
fn mod_command_does_not_exist() {
    let result = find_command("missing", &path_dirs(), &pathext(), &windows_files());
    assert_eq!(result.is_some(), false);
    let result = find_command("missing.com", &path_dirs(), &pathext(), &windows_files());
    assert_eq!(result.is_some(), false);
}

#[test]
fn command_exists_with_extension() {
    let result = find_command("win95_dominator", &path_dirs(), &Vec::new(), &fixture_files());
    assert_eq!(result.is_some(), false);
}

#[test]
fn command_different_extension_does_exist() {
    let result = find_command("bin_with_extension.com", &path_dirs(), &Vec::new(), &fixture_files());
    assert_eq!(result.is_some(), false);
}

#[test]
fn mod_command_different_extension_does_exist() {
    let result = find_command("bin_with_extension.com", &path_dirs(), &pathext(), &windows_files());
    assert_eq!(result.is_some(), false);
}

#[test]
fn command_exists_with_extension_in_pathext() {
    let result = find_command("bin_with_extension", &path_dirs(), &pathext(), &windows_files());
    assert_eq!(result.is_some(), true);
}

#[test]
fn command_exists_with_extension_not_in_pathext() {
    let result = find_command("win95_dominator", &path_dirs(), &pathext(), &windows_files());
    assert_eq!(result.is_some(), false);
}

#[test]
fn first_command_on_path_found() {
    let dirs = s(&["/work/tests/fixtures/bin", "/usr/local/bin"]);
    let mut files = fixture_files();
    files.push("/usr/local/bin/plan.sh".to_string());
    let result = find_command("plan.sh", &dirs, &Vec::new(), &files);
    assert_eq!(result.unwrap(), "/work/tests/fixtures/bin/plan.sh");
}

#[test]
fn candidates_in_search_order() {
    let dirs = s(&["/a", "/b"]);
    let c = command_candidates("tool", &dirs, &pathext());
    assert_eq!(c, s(&["/a/tool", "/a/tool.COM", "/a/tool.EXE", "/b/tool", "/b/tool.COM", "/b/tool.EXE"]));
    let c = command_candidates("tool.sh", &dirs, &pathext());
    assert_eq!(c, s(&["/a/tool.sh", "/b/tool.sh"]));
}

#[test]
fn extension_detection() {
    assert!(has_extension("plan.sh"));
    assert!(!has_extension("plan"));
    assert!(!has_extension(".hidden"));
    assert!(!has_extension(""));
}

#[test]
fn empty_search_path_finds_nothing() {
    let result = find_command("plan.sh", &Vec::new(), &Vec::new(), &fixture_files());
    assert!(result.is_none());
}
