use physx::includes::finalize_includes;
use physx::path::{compare, join, set_extension, Order};
use physx::text::{chars_of, contains, ends_with, matches_at, owned, replace, same, starts_with};

fn strings(names: &[&str]) -> Vec<String> {
    names.iter().map(|s| s.to_string()).collect()
}

#[test]
fn join_puts_one_separator_between() {
    assert_eq!(join("root", "source/common"), "root/source/common");
    assert_eq!(join("root/", "include"), "root/include");
    assert_eq!(join("", "include"), "include");
    assert_eq!(join("root", "/abs/dir"), "/abs/dir");
    assert_eq!(join("root", ""), "root/");
    assert_eq!(join("/", "usr"), "/usr");
}

#[test]
fn set_extension_replaces_or_adds() {
    assert_eq!(set_extension("src/NpActor", "cpp"), "src/NpActor.cpp");
    assert_eq!(set_extension("src/NpActor.cc", "cpp"), "src/NpActor.cpp");
    assert_eq!(set_extension("a.b/NpActor", "cpp"), "a.b/NpActor.cpp");
    assert_eq!(set_extension("src/a.b.c", "cpp"), "src/a.b.cpp");
    assert_eq!(set_extension("src/.hidden", "cpp"), "src/.hidden.cpp");
    assert_eq!(set_extension("structgen", "exe"), "structgen.exe");
    assert_eq!(set_extension("src/NpActor.cc", ""), "src/NpActor");
}

#[test]
fn set_extension_leaves_what_names_no_file() {
    assert_eq!(set_extension("", "cpp"), "");
    assert_eq!(set_extension("src/", "cpp"), "src/");
    assert_eq!(set_extension("src/..", "cpp"), "src/..");
    assert_eq!(set_extension(".", "cpp"), ".");
}

#[test]
fn compare_goes_component_by_component() {
    assert_eq!(compare("a/b", "a/b"), Order::Same);
    assert_eq!(compare("a", "a/b"), Order::Before);
    assert_eq!(compare("a/b", "a"), Order::After);
    assert_eq!(compare("a/b", "a-b"), Order::Before);
    assert_eq!(compare("a-b", "a/b"), Order::After);
    assert_eq!(compare("a/z", "b/a"), Order::Before);
    assert_eq!(compare("include", "source"), Order::Before);
    assert_eq!(compare("", "a"), Order::Before);
    assert_eq!(compare("", ""), Order::Same);
    assert_eq!(compare("a/b/c", "a/b.c"), Order::Before);
}

#[test]
fn finalize_removes_duplicates_from_two_components() {
    let dirs = strings(&["root/include", "root/source/a", "root/include", "root/source/b", "root/source/a"]);
    assert_eq!(finalize_includes(&dirs), strings(&["root/include", "root/source/a", "root/source/b"]));
}

#[test]
fn finalize_keeps_first_occurrence_order_of_sorted_input() {
    let dirs = strings(&["a", "a", "b", "a", "c", "b", "d"]);
    assert_eq!(finalize_includes(&dirs), strings(&["a", "b", "c", "d"]));
}

#[test]
fn finalize_sorts() {
    let dirs = strings(&["b", "a"]);
    assert_eq!(finalize_includes(&dirs), strings(&["a", "b"]));
    let dirs = strings(&["x/y-z", "x/y/z", "x", "x/y", "x/y"]);
    assert_eq!(finalize_includes(&dirs), strings(&["x", "x/y", "x/y/z", "x/y-z"]));
    assert_eq!(finalize_includes(&Vec::new()), Vec::<String>::new());
}

#[test]
fn text_finds_patterns() {
    assert!(contains("x86_64-unknown-linux-gnu", "-linux-"));
    assert!(!contains("x86_64-apple-darwin", "-linux-"));
    assert!(contains("abc", ""));
    assert!(contains("", ""));
    assert!(!contains("ab", "abc"));
    assert!(contains("sse2,crt-static", "crt-static"));
    assert!(starts_with("aarch64-linux-android", "aarch64-"));
    assert!(!starts_with("x86_64-aarch64-", "aarch64-"));
    assert!(ends_with("aarch64-apple-darwin", "apple-darwin"));
    assert!(!ends_with("apple-darwin-x", "apple-darwin"));
    assert!(!ends_with("darwin", "apple-darwin"));
    assert!(same("unix", "unix"));
    assert!(!same("unix", "unix "));
    assert!(!same("unix", "unit"));
}

#[test]
fn text_replaces_characters() {
    assert_eq!(replace("x86_64-unknown-linux-gnu", '-', "_"), "x86_64_unknown_linux_gnu");
    assert_eq!(replace("abc", '-', "_"), "abc");
    assert_eq!(replace("a-b", '-', ""), "ab");
    assert_eq!(replace("-", '-', "__"), "__");
    assert_eq!(replace("", '-', "_"), "");
}

#[test]
fn text_helpers_keep_their_input() {
    assert_eq!(chars_of("a/é"), vec!['a', '/', 'é']);
    assert_eq!(owned(&["a", "b"]), strings(&["a", "b"]));
    let text = chars_of("abcabc");
    let pattern = chars_of("bc");
    assert!(matches_at(&text, &pattern, 1));
    assert!(matches_at(&text, &pattern, 4));
    assert!(!matches_at(&text, &pattern, 0));
    assert!(!matches_at(&text, &pattern, 5));
    assert!(!matches_at(&text, &pattern, 100));
}

#[test]
fn source_lists_hold_quoted_names() {
    use_parse(
        "[\n    \"CmCollection\",\n    \"CmPtrTable\",\n    \"CmRadixSort\",\n]\n",
        &["CmCollection", "CmPtrTable", "CmRadixSort"],
    );
    use_parse("[\"a\", \"b\"]", &["a", "b"]);
    use_parse("\"a\"\"b\"", &["a", "b"]);
    use_parse("\"\"", &[""]);
    use_parse("", &[]);
    use_parse("[]", &[]);
    use_parse("no names here", &[]);
    use_parse("\"open", &[]);
    use_parse("\"a\", \"open", &["a"]);
    use_parse("\"with space\" \"é/ü\"", &["with space", "é/ü"]);
}

fn use_parse(text: &str, expected: &[&str]) {
    assert_eq!(physx::sources::parse_list(text), strings(expected), "{:?}", text);
}
