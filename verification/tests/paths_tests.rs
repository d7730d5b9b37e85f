use antex::paths::{file_path_from_url_parts, file_uri_path};
use antex::paths::{change_working_directory, WorkingDirectoryChange};
use antex::paths::{normalize_markdown_hash_location_suffix, strip_matching_path_quotes};

#[test]
fn strips_one_pair_of_matching_quotes() {
    assert_eq!(strip_matching_path_quotes("\"my dir\""), "my dir");
    assert_eq!(strip_matching_path_quotes("'my dir'"), "my dir");
    assert_eq!(strip_matching_path_quotes("\"\""), "");
    assert_eq!(strip_matching_path_quotes("\"mixed'"), "\"mixed'");
    assert_eq!(strip_matching_path_quotes("\""), "\"");
    assert_eq!(strip_matching_path_quotes("plain"), "plain");
    assert_eq!(strip_matching_path_quotes("\"ünï\""), "ünï");
}

#[test]
fn hash_locations_become_line_and_column_suffixes() {
    assert_eq!(normalize_markdown_hash_location_suffix("#L10"), Some(":10".to_string()));
    assert_eq!(normalize_markdown_hash_location_suffix("#L10C2"), Some(":10:2".to_string()));
    assert_eq!(
        normalize_markdown_hash_location_suffix("#L10C2-L12C4"),
        Some(":10:2-12:4".to_string())
    );
    assert_eq!(normalize_markdown_hash_location_suffix("#L10-L12"), Some(":10-12".to_string()));
}

#[test]
fn other_suffixes_are_not_locations() {
    assert_eq!(normalize_markdown_hash_location_suffix("L10"), None);
    assert_eq!(normalize_markdown_hash_location_suffix("#10"), None);
    assert_eq!(normalize_markdown_hash_location_suffix("#L10-12"), None);
    assert_eq!(normalize_markdown_hash_location_suffix(""), None);
}

#[test]
fn cd_argument_is_trimmed_unquoted_and_checked() {
    assert_eq!(
        change_working_directory("  \"my dir\"  ", true),
        WorkingDirectoryChange::Change("my dir".to_string())
    );
    assert_eq!(
        change_working_directory("../src", true),
        WorkingDirectoryChange::Change("../src".to_string())
    );
    assert_eq!(
        change_working_directory("   ", true),
        WorkingDirectoryChange::Rejected("Usage: /cd <path>".to_string())
    );
    assert_eq!(
        change_working_directory("src", false),
        WorkingDirectoryChange::Rejected(
            "Cannot change the working directory before the session is ready.".to_string()
        )
    );
    assert_eq!(
        change_working_directory("''", true),
        WorkingDirectoryChange::Rejected("Working directory path cannot be empty.".to_string())
    );
    // A lone quote is not a matching pair and stays.
    assert_eq!(
        change_working_directory("'", true),
        WorkingDirectoryChange::Change("'".to_string())
    );
}

#[test]
fn file_uris_name_local_paths() {
    assert_eq!(file_uri_path("file:///tmp/a%20b.txt"), Some("/tmp/a b.txt".to_string()));
    assert_eq!(file_uri_path("file:///C:/Users/x.rs"), Some("C:/Users/x.rs".to_string()));
    assert_eq!(file_uri_path("file://server/share/x"), Some("//server/share/x".to_string()));
    assert_eq!(file_uri_path("file://localhost/tmp/x"), Some("/tmp/x".to_string()));
}

#[test]
fn other_uris_name_no_local_path() {
    assert_eq!(file_uri_path("https://example.com/x"), None);
    assert_eq!(file_uri_path("file:///tmp/x?y=1"), None);
    assert_eq!(file_uri_path("file:///tmp/x#L3"), None);
    assert_eq!(file_uri_path("not a url"), None);
    assert_eq!(file_uri_path("file:///tmp/%00x"), None);
    assert_eq!(file_uri_path("file:///tmp/%FF"), None);
}

#[test]
fn file_paths_from_url_parts() {
    let some = |s: &str| Some(s.to_string());
    assert_eq!(file_path_from_url_parts("file", &None, &None, &None, &some("/a/b")), some("/a/b"));
    assert_eq!(
        file_path_from_url_parts("file", &None, &None, &some("localhost"), &some("/a")),
        some("/a")
    );
    assert_eq!(file_path_from_url_parts("file", &None, &None, &some("h"), &some("/a")), some("//h/a"));
    assert_eq!(file_path_from_url_parts("file", &None, &None, &None, &some("/z:/a")), some("z:/a"));
    assert_eq!(file_path_from_url_parts("file", &None, &None, &None, &some("/1:/a")), some("/1:/a"));
    assert_eq!(file_path_from_url_parts("file", &None, &None, &None, &some("/C:")), some("/C:"));
    assert_eq!(file_path_from_url_parts("http", &None, &None, &None, &some("/a")), None);
    assert_eq!(file_path_from_url_parts("file", &some(""), &None, &None, &some("/a")), None);
    assert_eq!(file_path_from_url_parts("file", &None, &some("x"), &None, &some("/a")), None);
    assert_eq!(file_path_from_url_parts("file", &None, &None, &None, &None), None);
    assert_eq!(file_path_from_url_parts("file", &None, &None, &None, &some("/a\0b")), None);
}
