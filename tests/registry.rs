use taita::project::Project;
use taita::registry::{
    add_project, edit_project, get_project_position, new_project, registry_bytes, registry_text,
    remove_project,
    RegistryError,
};

fn s(x: &str) -> String {
    x.to_string()
}

fn strings(xs: &[&str]) -> Vec<String> {
    xs.iter().map(|x| x.to_string()).collect()
}

fn project(name: &str, tags: &[&str]) -> Project {
    Project {
        repo: format!("user/{}", name),
        name: s(name),
        dir: s(name),
        links: Vec::new(),
        tags: strings(tags),
    }
}

fn names(ps: &Vec<Project>) -> Vec<String> {
    ps.iter().map(|p| p.name.clone()).collect()
}

#[test]
fn position_of_first_match() {
    let ps = vec![project("a", &[]), project("b", &[]), project("b", &["dup"])];
    assert_eq!(get_project_position(&ps, s("b")), Ok(1));
    assert_eq!(get_project_position(&ps, s("a")), Ok(0));
}

#[test]
fn position_missing_name_is_not_found() {
    let ps = vec![project("a", &[])];
    assert_eq!(get_project_position(&ps, s("z")), Err(RegistryError::NotFound(s("z"))));
}

#[test]
fn position_in_empty_registry_is_not_found() {
    let ps: Vec<Project> = Vec::new();
    assert_eq!(get_project_position(&ps, s("")), Err(RegistryError::NotFound(s(""))));
    assert_eq!(get_project_position(&ps, s("x")), Err(RegistryError::NotFound(s("x"))));
}

#[test]
fn add_defaults_name_and_folder_to_last_segment() {
    let mut ps: Vec<Project> = Vec::new();
    add_project(&mut ps, s("user/repo"), None, None, Vec::new());
    assert_eq!(ps.len(), 1);
    assert_eq!(ps[0].name, "repo");
    assert_eq!(ps[0].dir, "repo");
    assert_eq!(ps[0].repo, "user/repo");
    assert!(ps[0].links.is_empty());
    assert!(ps[0].tags.is_empty());
}

#[test]
fn add_keeps_given_fields_and_appends() {
    let mut ps = vec![project("first", &[])];
    add_project(&mut ps, s("https://example.org/x/tool"), Some(s("t")), Some(s("tools/t")), strings(&["cli"]));
    assert_eq!(names(&ps), strings(&["first", "t"]));
    assert_eq!(ps[1].dir, "tools/t");
    assert_eq!(ps[1].repo, "https://example.org/x/tool");
    assert_eq!(ps[1].tags, strings(&["cli"]));
}

#[test]
fn new_project_without_slash_uses_whole_repo() {
    let p = new_project(s("solo"), None, Some(s("d")), Vec::new());
    assert_eq!(p.name, "solo");
    assert_eq!(p.dir, "d");
}

#[test]
fn new_project_with_trailing_slash_has_empty_segment() {
    let p = new_project(s("user/"), None, None, Vec::new());
    assert_eq!(p.name, "");
    assert_eq!(p.dir, "");
}

#[test]
fn rm_keeps_order_of_the_rest() {
    let mut ps = vec![project("x", &[]), project("y", &[])];
    assert_eq!(remove_project(&mut ps, s("x")), Ok(0));
    assert_eq!(names(&ps), strings(&["y"]));
}

#[test]
fn rm_middle_record() {
    let mut ps = vec![project("a", &[]), project("b", &[]), project("c", &[])];
    assert_eq!(remove_project(&mut ps, s("b")), Ok(1));
    assert_eq!(names(&ps), strings(&["a", "c"]));
}

#[test]
fn rm_missing_name_fails_and_keeps_registry() {
    let mut ps = vec![project("x", &[]), project("y", &[])];
    assert_eq!(remove_project(&mut ps, s("q")), Err(RegistryError::NotFound(s("q"))));
    assert_eq!(names(&ps), strings(&["x", "y"]));
}

#[test]
fn edit_tags_removal_wins_over_addition() {
    let mut ps = vec![project("proj", &["b", "c"])];
    let r = edit_project(&mut ps, s("proj"), None, None, None, strings(&["a", "b"]), strings(&["b"]));
    assert_eq!(r, Ok(0));
    assert_eq!(ps[0].tags, strings(&["c", "a"]));
    assert_eq!(ps[0].name, "proj");
    assert_eq!(ps[0].repo, "user/proj");
}

#[test]
fn edit_overrides_given_fields_only() {
    let mut ps = vec![project("a", &[]), project("p", &["t"])];
    ps[1].links = strings(&["https://example.org"]);
    let r = edit_project(&mut ps, s("p"), Some(s("q")), Some(s("f")), None, Vec::new(), Vec::new());
    assert_eq!(r, Ok(1));
    assert_eq!(ps[1].name, "q");
    assert_eq!(ps[1].dir, "f");
    assert_eq!(ps[1].repo, "user/p");
    assert_eq!(ps[1].tags, strings(&["t"]));
    assert_eq!(ps[1].links, strings(&["https://example.org"]));
    assert_eq!(ps[0], project("a", &[]));
}

#[test]
fn edit_repo_field() {
    let mut ps = vec![project("p", &[])];
    let r = edit_project(&mut ps, s("p"), None, None, Some(s("other/p")), Vec::new(), Vec::new());
    assert_eq!(r, Ok(0));
    assert_eq!(ps[0].repo, "other/p");
}

#[test]
fn edit_missing_name_is_not_found() {
    let mut ps = vec![project("p", &["t"])];
    let r = edit_project(&mut ps, s("nope"), Some(s("q")), None, None, strings(&["x"]), Vec::new());
    assert_eq!(r, Err(RegistryError::NotFound(s("nope"))));
    assert_eq!(ps[0], project("p", &["t"]));
}

#[test]
fn registry_text_accepts_utf8() {
    let bytes = "[{\"name\":\"caf\u{e9}\"}]".as_bytes().to_vec();
    assert_eq!(registry_text(&bytes), Ok(s("[{\"name\":\"caf\u{e9}\"}]")));
    assert_eq!(registry_text(&Vec::new()), Ok(s("")));
}

#[test]
fn registry_text_rejects_bad_bytes() {
    assert_eq!(registry_text(&vec![0x5b, 0xff, 0x5d]), Err(RegistryError::DataCorrupt));
    assert_eq!(registry_text(&vec![0xed, 0xa0, 0x80]), Err(RegistryError::DataCorrupt));
}

#[test]
fn registry_bytes_read_back_as_same_text() {
    let text = "[\n  {\n    \"name\": \"n\u{f6}tes \u{1F600}\"\n  }\n]";
    let bytes = registry_bytes(text);
    assert_eq!(bytes, text.as_bytes().to_vec());
    assert_eq!(registry_text(&bytes), Ok(text.to_string()));
}
