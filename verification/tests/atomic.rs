//! Temporary paths.

use cobre_io::output::atomic::tmp_path;

#[test]
fn tmp_path_preserves_extension() {
    assert_eq!(tmp_path("/x/foo.parquet"), "/x/foo.parquet.tmp");
    assert_eq!(tmp_path("/x/foo.json"), "/x/foo.json.tmp");
    assert_eq!(tmp_path("/x/foo"), "/x/foo.tmp");
}

#[test]
fn tmp_path_is_that_of_the_standard_library() {
    for path in [
        "foo", "foo.json", "a/foo.json", "a.b/foo", "a.b/foo.c.d", ".hidden", "a/.hidden", "foo.",
        "...", "a/...", "foo/", "foo.json/", "foo.json//", "foo/.", "foo.json/./", ".",
        "..", "a/..", "./", "/", "//", "/.", "", "a/../", "./.", "a/b/./.", "\u{e9}/\u{e9}.bin",
    ] {
        let p = std::path::Path::new(path);
        let expected = p.with_extension(p.extension().map_or_else(
            || "tmp".to_string(),
            |ext| format!("{}.tmp", ext.to_string_lossy()),
        ));
        assert_eq!(
            tmp_path(path),
            expected.to_str().expect("utf-8"),
            "path {path:?}"
        );
    }
}

#[test]
fn tmp_path_of_a_name_with_two_dots_in_front() {
    assert_eq!(tmp_path("..foo"), "..foo.tmp");
    assert_eq!(tmp_path("a/..foo"), "a/..foo.tmp");
}

#[test]
fn files_with_other_extensions_have_other_temporary_files() {
    assert_ne!(tmp_path("a/x.json"), tmp_path("a/x.parquet"));
    assert_ne!(tmp_path("a/x.json"), tmp_path("a/x"));
    assert_ne!(tmp_path("a/x.json"), "a/x.json");
}
