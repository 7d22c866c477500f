use acbr_lib::pathlist::{ensure_path_entry, path_list_contains};

const SEP: u8 = b';';

fn list(s: &str) -> Vec<u8> {
    s.as_bytes().to_vec()
}

#[test]
fn contains_finds_whole_segments_only() {
    let l = list("C:/windows;C:/tools/deps;C:/bin");
    assert!(path_list_contains(&l, &list("C:/tools/deps"), SEP));
    assert!(path_list_contains(&l, &list("C:/windows"), SEP));
    assert!(path_list_contains(&l, &list("C:/bin"), SEP));
    assert!(!path_list_contains(&l, &list("C:/tools"), SEP), "a prefix is not a segment");
    assert!(!path_list_contains(&l, &list("deps"), SEP), "a suffix is not a segment");
    assert!(!path_list_contains(&l, &list("C:/usr"), SEP));
}

#[test]
fn contains_on_empty_and_single_entry_lists() {
    assert!(!path_list_contains(&Vec::new(), &list("C:/deps"), SEP));
    assert!(path_list_contains(&list("C:/deps"), &list("C:/deps"), SEP));
}

#[test]
fn ensure_prepends_a_missing_entry_preserving_the_rest() {
    let l = list("C:/windows;C:/bin");
    let r = ensure_path_entry(&l, &list("C:/deps"), SEP);
    assert_eq!(r, list("C:/deps;C:/windows;C:/bin"));
    assert!(path_list_contains(&r, &list("C:/deps"), SEP));
    assert!(path_list_contains(&r, &list("C:/windows"), SEP));
    assert!(path_list_contains(&r, &list("C:/bin"), SEP));
}

#[test]
fn ensure_leaves_a_present_entry_alone() {
    let l = list("C:/deps;C:/bin");
    let r = ensure_path_entry(&l, &list("C:/deps"), SEP);
    assert_eq!(r, l);
}

#[test]
fn ensure_is_idempotent() {
    let l = list("C:/windows");
    let once = ensure_path_entry(&l, &list("C:/deps"), SEP);
    let twice = ensure_path_entry(&once, &list("C:/deps"), SEP);
    assert_eq!(once, twice, "the entry is inserted at most once");
}

#[test]
fn ensure_on_an_empty_list_still_separates() {
    let r = ensure_path_entry(&Vec::new(), &list("C:/deps"), SEP);
    assert_eq!(r, list("C:/deps;"));
    assert!(path_list_contains(&r, &list("C:/deps"), SEP));
}
