use dataset::layout::{dataset, join_text, make_roottree, select_root, DEFAULT_ROOT};

#[test]
fn roottree_has_data_and_description() {
    let tree = make_roottree("/tmp/r");
    assert_eq!(tree.data_path(), "/tmp/r/data");
    assert_eq!(tree.description_path(), "/tmp/r/description");
}

#[test]
fn roottree_of_the_default_root() {
    let tree = make_roottree(DEFAULT_ROOT);
    assert_eq!(tree.data_path(), ".dataset/data");
    assert_eq!(tree.description_path(), ".dataset/description");
}

#[test]
fn roottree_takes_the_root_as_it_is() {
    assert_eq!(make_roottree("").data_path(), "/data");
    assert_eq!(make_roottree("r/").description_path(), "r//description");
    assert_eq!(make_roottree("a b/ü").data_path(), "a b/ü/data");
}

#[test]
fn dataset_paths_are_siblings() {
    let tree = make_roottree("/tmp/r");
    let set = dataset(&tree, "abc");
    assert_eq!(set.hexmd5(), "abc");
    assert_eq!(set.data_path(), "/tmp/r/data/abc");
    assert_eq!(set.description_path(), "/tmp/r/description/abc");
}

#[test]
fn dataset_is_a_function_of_root_and_fingerprint() {
    let digest = "5d41402abc4b2a76b9719d911017c592";
    let first = dataset(&make_roottree("/tmp/r"), digest);
    let second = dataset(&make_roottree("/tmp/r"), digest);
    assert_eq!(first.hexmd5(), second.hexmd5());
    assert_eq!(first.data_path(), second.data_path());
    assert_eq!(first.description_path(), second.description_path());
    assert_eq!(first.data_path(), "/tmp/r/data/5d41402abc4b2a76b9719d911017c592");
    assert_eq!(
        first.description_path(),
        "/tmp/r/description/5d41402abc4b2a76b9719d911017c592"
    );
}

#[test]
fn dataset_paths_differ_from_each_other() {
    let set = dataset(&make_roottree("/tmp/r"), "abc");
    assert_ne!(set.data_path(), set.description_path());
}

#[test]
fn datasets_with_different_fingerprints_share_no_path() {
    let tree = make_roottree("/tmp/r");
    let one = dataset(&tree, "abc");
    let other = dataset(&tree, "abd");
    assert_ne!(one.data_path(), other.data_path());
    assert_ne!(one.description_path(), other.description_path());
}

#[test]
fn dataset_of_the_empty_fingerprint() {
    let set = dataset(&make_roottree("r"), "");
    assert_eq!(set.hexmd5(), "");
    assert_eq!(set.data_path(), "r/data/");
    assert_eq!(set.description_path(), "r/description/");
}

#[test]
fn select_root_defaults_to_dot_dataset() {
    assert_eq!(DEFAULT_ROOT, ".dataset");
    assert_eq!(select_root(None), ".dataset");
    assert_eq!(select_root(Some("/srv/store")), "/srv/store");
    assert_eq!(select_root(Some("")), "");
}

#[test]
fn join_text_puts_the_tail_after_the_head() {
    assert_eq!(join_text("ab", "cd"), "abcd");
    assert_eq!(join_text("", "cd"), "cd");
    assert_eq!(join_text("ab", ""), "ab");
}
