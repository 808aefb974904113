use taita::tags::{apply_tag_delta, contains_tag};

fn strings(xs: &[&str]) -> Vec<String> {
    xs.iter().map(|x| x.to_string()).collect()
}

#[test]
fn delta_appends_added_after_current() {
    let r = apply_tag_delta(&strings(&["x", "y"]), &strings(&["z"]), &Vec::new());
    assert_eq!(r, strings(&["x", "y", "z"]));
}

#[test]
fn delta_keeps_duplicates() {
    let r = apply_tag_delta(&strings(&["x"]), &strings(&["x", "y"]), &Vec::new());
    assert_eq!(r, strings(&["x", "x", "y"]));
}

#[test]
fn delta_removes_from_both_parts() {
    let r = apply_tag_delta(&strings(&["a", "b", "a"]), &strings(&["a", "c"]), &strings(&["a"]));
    assert_eq!(r, strings(&["b", "c"]));
}

#[test]
fn delta_of_empty_lists_is_empty() {
    let r = apply_tag_delta(&Vec::new(), &Vec::new(), &strings(&["a"]));
    assert!(r.is_empty());
}

#[test]
fn delta_members_are_union_less_removed() {
    let current = strings(&["b", "c"]);
    let add = strings(&["a", "b", "d"]);
    let remove = strings(&["b", "e"]);
    let r = apply_tag_delta(&current, &add, &remove);
    for t in ["a", "b", "c", "d", "e"] {
        let t = t.to_string();
        let expected = (current.contains(&t) || add.contains(&t)) && !remove.contains(&t);
        assert_eq!(r.contains(&t), expected);
    }
}

#[test]
fn delta_again_with_added_tags_all_removed_is_unchanged() {
    let current = strings(&["b", "c"]);
    let add = strings(&["b"]);
    let remove = strings(&["b"]);
    let once = apply_tag_delta(&current, &add, &remove);
    let twice = apply_tag_delta(&once, &add, &remove);
    assert_eq!(once, strings(&["c"]));
    assert_eq!(twice, once);
}

#[test]
fn delta_again_with_only_removals_is_unchanged() {
    let once = apply_tag_delta(&strings(&["b", "c"]), &strings(&["a", "b"]), &strings(&["b"]));
    let again = apply_tag_delta(&once, &Vec::new(), &strings(&["b"]));
    assert_eq!(once, strings(&["c", "a"]));
    assert_eq!(again, once);
}

#[test]
fn contains_tag_compares_whole_strings() {
    let tags = strings(&["ab", "c"]);
    assert!(contains_tag(&tags, &"c".to_string()));
    assert!(!contains_tag(&tags, &"a".to_string()));
    assert!(!contains_tag(&Vec::new(), &"".to_string()));
}
