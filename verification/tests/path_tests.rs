use tmsadm::pathres::get_absolute_path;
use tmsadm::pathres::get_absolute_path_twice;

#[test]
fn absolute_normal_path_unchanged() {
    assert_eq!(get_absolute_path("/var/lib/tms/tms.db"), "/var/lib/tms/tms.db");
    assert_eq!(get_absolute_path("/"), "/");
}

#[test]
fn resolution_idempotent_on_absolute_paths() {
    let (once, twice) = get_absolute_path_twice("/var/lib/tms/tms.db");
    assert_eq!(once, twice);
    let (once, twice) = get_absolute_path_twice("/a/b/../c/./d");
    assert_eq!(once, twice);
    let (once, twice) = get_absolute_path_twice("/a//b/");
    assert_eq!(once, twice);
}

#[test]
fn dot_segments_removed() {
    assert_eq!(get_absolute_path("/a/./b"), "/a/b");
    assert_eq!(get_absolute_path("/a/b/../c"), "/a/c");
}

#[test]
fn empty_and_trailing_separators_collapsed() {
    assert_eq!(get_absolute_path("/a//b"), "/a/b");
    assert_eq!(get_absolute_path("/a/b/"), "/a/b");
}

#[test]
fn inert_dollar_is_plain_text() {
    assert_eq!(get_absolute_path("/a$"), "/a$");
    assert_eq!(get_absolute_path("/a$/b"), "/a$/b");
    assert_eq!(get_absolute_path("/a$-b/c"), "/a$-b/c");
    let (once, twice) = get_absolute_path_twice("/a$/./b");
    assert_eq!(once, "/a$/b");
    assert_eq!(once, twice);
}

#[test]
fn undefined_variable_falls_back_to_input() {
    let input = "/data/$TMSADM_UNSET_VARIABLE_FOR_TEST/tms.db";
    assert_eq!(get_absolute_path(input), input);
    let braced = "/data/${TMSADM_UNSET_VARIABLE_FOR_TEST}/tms.db";
    assert_eq!(get_absolute_path(braced), braced);
}

#[test]
fn variable_with_default_expands() {
    let input = "/data/${TMSADM_UNSET_VARIABLE_FOR_TEST:-fallback}/tms.db";
    assert_eq!(get_absolute_path(input), "/data/fallback/tms.db");
}
