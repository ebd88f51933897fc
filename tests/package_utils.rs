use usd_ar::{
    find_matching_opening_delimiter, find_outermost_closing_delimiter, is_package_relative_path,
    split_package_relative_path_outer, unescape_delimiters,
};

#[test]
fn test_unescape_delimiters() {
    let path = "/dir/\\[foo\\].package[bar.package[baz.file]]";
    assert_eq!(
        unescape_delimiters(path),
        "/dir/[foo].package[bar.package[baz.file]]"
    );
}

#[test]
fn test_find_matching_opening_delimiter() {
    assert_eq!(find_matching_opening_delimiter("[asd]", 4), Some(0));
    assert_eq!(find_matching_opening_delimiter("a[sd]", 4), Some(1));
    assert_eq!(find_matching_opening_delimiter("a[s\\[d]", 6), Some(1));
}

#[test]
fn test_is_package_relative_path() {
    assert!(is_package_relative_path("[asd]"));
    assert!(is_package_relative_path("a[sd]"));
    assert!(is_package_relative_path("[a\\[sd]"));
    assert!(!is_package_relative_path("a\\[sd\\]"));
    assert!(!is_package_relative_path("asd"));
}

#[test]
fn test_split_package_relative_path_outer() {
    let path = "/dir/\\[foo\\].package[bar.package[baz.file]]";
    let paths = split_package_relative_path_outer(path);
    assert_eq!(
        paths,
        Some((
            "/dir/[foo].package".to_string(),
            "bar.package[baz.file]".to_string()
        ))
    );
}

#[test]
fn matching_skips_nested_pairs() {
    assert_eq!(find_matching_opening_delimiter("a[b[c]d]", 7), Some(1));
    assert_eq!(find_matching_opening_delimiter("a[b[c]d]", 5), Some(3));
}

#[test]
fn matching_fails_when_unbalanced() {
    assert_eq!(find_matching_opening_delimiter("a]b]", 3), None);
    assert_eq!(find_matching_opening_delimiter("]", 0), None);
    assert_eq!(find_matching_opening_delimiter("", 0), None);
    assert_eq!(find_matching_opening_delimiter("a\\[b]", 4), None);
}

#[test]
fn matching_from_past_the_end_scans_the_whole_text() {
    assert_eq!(find_matching_opening_delimiter("x[y", 10), Some(1));
}

#[test]
fn outermost_closing_delimiter_is_the_last_character() {
    assert_eq!(find_outermost_closing_delimiter("a[b]"), Some(3));
    assert_eq!(find_outermost_closing_delimiter("a[b"), None);
    assert_eq!(find_outermost_closing_delimiter(""), None);
}

#[test]
fn empty_path_is_not_package_relative() {
    assert!(!is_package_relative_path(""));
    assert!(!is_package_relative_path("]"));
}

#[test]
fn unescape_stops_at_an_open_package() {
    assert_eq!(unescape_delimiters("a\\[b[c"), "a[b[c");
    assert_eq!(unescape_delimiters("a\\[b\\]c"), "a[b]c");
    assert_eq!(unescape_delimiters(""), "");
    assert_eq!(unescape_delimiters("plain"), "plain");
}

#[test]
fn unescape_keeps_a_lone_backslash() {
    assert_eq!(unescape_delimiters("a\\b"), "a\\b");
    assert_eq!(unescape_delimiters("a\\\\[b\\]"), "a\\[b]");
}

#[test]
fn split_rejects_paths_outside_packages() {
    assert_eq!(split_package_relative_path_outer("asd"), None);
    assert_eq!(split_package_relative_path_outer("a]"), None);
    assert_eq!(split_package_relative_path_outer(""), None);
}

#[test]
fn split_nested_package_path() {
    assert_eq!(
        split_package_relative_path_outer("a.package[b.package[c.file]]"),
        Some(("a.package".to_string(), "b.package[c.file]".to_string()))
    );
    assert_eq!(
        split_package_relative_path_outer("[x]"),
        Some(("".to_string(), "x".to_string()))
    );
}

#[test]
fn split_undoes_escaping_of_the_outer_path() {
    let outer = "dir/x[y]";
    let escaped = "dir/x\\[y\\]";
    let inner = "in[side]";
    let path = format!("{}[{}]", escaped, inner);
    assert_eq!(
        split_package_relative_path_outer(&path),
        Some((outer.to_string(), inner.to_string()))
    );
}

#[test]
fn outer_path_ending_in_backslash_escapes_the_package() {
    assert_eq!(split_package_relative_path_outer("a\\[x]"), None);
    assert!(!is_package_relative_path("a\\[x]"));
}

#[test]
fn unbalanced_inner_path_does_not_split_back() {
    assert_eq!(
        split_package_relative_path_outer("a[b]]"),
        None
    );
}

#[test]
fn positions_are_byte_positions() {
    assert_eq!(find_matching_opening_delimiter("\u{e9}[a]", 4), Some(2));
    assert_eq!(find_matching_opening_delimiter("\u{e9}[a]", 2), None);
    assert_eq!(find_outermost_closing_delimiter("\u{e9}]"), Some(2));
    let p = "\u{e9}[a]";
    assert!(is_package_relative_path(p));
    assert_eq!(find_matching_opening_delimiter(p, p.len() - 1), Some(2));
    assert_eq!(find_outermost_closing_delimiter(p), Some(p.len() - 1));
}

#[test]
fn prefix_keeps_a_match() {
    assert_eq!(find_matching_opening_delimiter("[a]", 2), Some(0));
    assert_eq!(find_matching_opening_delimiter("\u{e9}[a]", 4), Some(2));
    assert_eq!(find_matching_opening_delimiter("x\u{4e2d}[a[b]]", 9), Some(4));
}

#[test]
fn non_ascii_paths_split_and_unescape() {
    assert_eq!(
        split_package_relative_path_outer("\u{e9}\\[x\\].pkg[\u{e8}[f]]"),
        Some(("\u{e9}[x].pkg".to_string(), "\u{e8}[f]".to_string()))
    );
    assert_eq!(unescape_delimiters("\u{e9}\\[b[c"), "\u{e9}[b[c");
}
