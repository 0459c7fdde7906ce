use fsnav::models::file_entry::FileEntry;
use fsnav::preview::FilePreview;
use fsnav::search::{SearchMode, SearchResult};
use fsnav::utils::patterns::match_pattern;

fn entry(name: &str, path: &str, is_dir: bool, permissions: Option<u32>, owner: Option<&str>, group: Option<&str>, uid: Option<u32>, gid: Option<u32>) -> FileEntry {
    FileEntry {
        name: name.to_string(),
        path: path.to_string(),
        is_dir,
        is_accessible: true,
        is_symlink: false,
        permissions,
        owner: owner.map(|s| s.to_string()),
        group: group.map(|s| s.to_string()),
        uid,
        gid,
    }
}

#[test]
fn test_basic() {
    assert!(true);
}

#[test]
fn test_file_entry_display() {
    let dir_entry = entry(
        "test_dir",
        "/test/test_dir",
        true,
        Some(0o755),
        Some("user"),
        Some("group"),
        Some(1000),
        Some(1000),
    );
    assert_eq!(dir_entry.display_name(), "\u{1f4c1} test_dir/");

    let file_entry = entry(
        "test.txt",
        "/test/test.txt",
        false,
        Some(0o644),
        Some("user"),
        Some("group"),
        Some(1000),
        Some(1000),
    );
    assert_eq!(file_entry.display_name(), "\u{1f4c4} test.txt");
}

#[test]
fn file_entry_test_file_entry_display() {
    let dir_entry = entry(
        "test_dir",
        "/test/test_dir",
        true,
        Some(0o755),
        Some("user"),
        Some("group"),
        None,
        None,
    );
    assert_eq!(dir_entry.display_name(), "\u{1f4c1} test_dir/");

    let file_entry = entry(
        "test.txt",
        "/test/test.txt",
        false,
        Some(0o644),
        Some("user"),
        Some("group"),
        None,
        None,
    );
    assert_eq!(file_entry.display_name(), "\u{1f4c4} test.txt");
}

#[test]
fn test_permissions_string() {
    let e = entry("test", "/test", false, Some(0o755), None, None, None, None);
    assert_eq!(e.permissions_string(), "rwxr-xr-x");
}

#[test]
fn file_entry_test_permissions_string() {
    let e = entry("test", "/test", false, Some(0o755), None, None, None, None);
    assert_eq!(e.permissions_string(), "rwxr-xr-x");

    let e2 = entry("test2", "/test2", false, Some(0o644), None, None, None, None);
    assert_eq!(e2.permissions_string(), "rw-r--r--");
}

#[test]
fn test_ownership_string() {
    let e = entry("f", "/f", false, None, Some("alice"), Some("staff"), Some(1000), Some(50));
    assert_eq!(e.ownership_string(), "alice staff");
    let anon = entry("g", "/g", false, None, None, None, None, None);
    assert_eq!(anon.ownership_string(), "- -");
}

#[test]
fn test_mime_type_detection() {
    assert_eq!(FilePreview::detect_mime_type("test.txt"), "text/plain");
    assert_eq!(FilePreview::detect_mime_type("code.rs"), "text/x-rust");
    assert_eq!(FilePreview::detect_mime_type("image.png"), "image/png");
    assert_eq!(FilePreview::detect_mime_type("archive.zip"), "application/zip");
    assert_eq!(FilePreview::detect_mime_type("unknown.xyz"), "application/octet-stream");
}

#[test]
fn test_format_size() {
    assert_eq!(FilePreview::format_size(512), "512 B");
    assert_eq!(FilePreview::format_size(1024), "1.00 KB");
    assert_eq!(FilePreview::format_size(1536), "1.50 KB");
    assert_eq!(FilePreview::format_size(1048576), "1.00 MB");
    assert_eq!(FilePreview::format_size(1073741824), "1.00 GB");
}

#[test]
fn test_format_permissions() {
    assert_eq!(FilePreview::format_permissions(0o755), "rwxr-xr-x");
    assert_eq!(FilePreview::format_permissions(0o644), "rw-r--r--");
    assert_eq!(FilePreview::format_permissions(0o600), "rw-------");
    assert_eq!(FilePreview::format_permissions(0o777), "rwxrwxrwx");
    assert_eq!(FilePreview::format_permissions(0o000), "---------");
}

#[test]
fn test_ascii_placeholder() {
    assert!(FilePreview::generate_ascii_placeholder("png").is_some());
    assert!(FilePreview::generate_ascii_placeholder("svg").is_some());
    assert!(FilePreview::generate_ascii_placeholder("zip").is_none());
}

#[test]
fn test_glob_patterns() {
    assert!(match_pattern("*.txt", "file.txt"));
    assert!(!match_pattern("*.txt", "file.md"));
    assert!(match_pattern("file*", "file123"));
    assert!(match_pattern("*test*", "mytestfile"));
}

#[test]
fn test_regex_patterns() {
    assert!(match_pattern(r"^\d+$", "123"));
    assert!(!match_pattern(r"^\d+$", "abc"));
    assert!(match_pattern(r"test\d+", "test123"));
}

#[test]
fn test_substring_matching() {
    assert!(match_pattern("test", "mytestfile"));
    assert!(!match_pattern("test", "myfile"));
}

#[test]
fn test_empty_pattern_matches_nothing() {
    assert!(!match_pattern("", "anything"));
    assert!(!match_pattern("", ""));
}

#[test]
fn test_search_mode_creation() {
    let search = SearchMode::new();
    assert!(search.query.is_empty());
    assert!(!search.use_regex);
    assert!(!search.case_sensitive);
    assert!(search.results.is_empty());
}

#[test]
fn test_simple_search() {
    let mut search = SearchMode::new();
    search.query = "test".to_string();

    let entries = vec![
        entry("test.txt", "/test.txt", false, None, None, None, None, None),
        entry("other.rs", "/other.rs", false, None, None, None, None, None),
    ];

    search.search(&entries);
    assert_eq!(search.results.len(), 1);
    assert_eq!(search.results[0].entry.name, "test.txt");
}

#[test]
fn test_case_insensitive_search() {
    let mut search = SearchMode::new();
    search.query = "TEST".to_string();
    search.case_sensitive = false;

    let entries = vec![entry("test.txt", "/test.txt", false, None, None, None, None, None)];

    search.search(&entries);
    assert_eq!(search.results.len(), 1);
}

#[test]
fn test_regex_search() {
    let mut search = SearchMode::new();
    search.query = r"^test.*\.txt$".to_string();
    search.use_regex = true;

    let entries = vec![
        entry("test123.txt", "/test123.txt", false, None, None, None, None, None),
        entry("test.rs", "/test.rs", false, None, None, None, None, None),
    ];

    search.search(&entries);
    assert_eq!(search.results.len(), 1);
    assert_eq!(search.results[0].entry.name, "test123.txt");
}

#[test]
fn test_invalid_regex_gives_no_results() {
    let mut search = SearchMode::new();
    search.query = "[".to_string();
    search.use_regex = true;

    let entries = vec![entry("[file", "/[file", false, None, None, None, None, None)];
    search.search(&entries);
    assert!(search.results.is_empty());
}

#[test]
fn test_navigation() {
    let mut search = SearchMode::new();

    for i in 0..3 {
        search.results.push(SearchResult {
            entry: entry(
                &format!("file{}.txt", i),
                &format!("/file{}.txt", i),
                false,
                None,
                None,
                None,
                None,
                None,
            ),
            match_context: None,
            line_number: None,
        });
    }

    assert_eq!(search.current_result_index, 0);

    search.next_result();
    assert_eq!(search.current_result_index, 1);

    search.next_result();
    assert_eq!(search.current_result_index, 2);

    search.next_result();
    assert_eq!(search.current_result_index, 0);

    search.previous_result();
    assert_eq!(search.current_result_index, 2);
}

#[test]
fn test_toggles_clear_results() {
    let entries = vec![entry("test.txt", "/test.txt", false, None, None, None, None, None)];

    let mut search = SearchMode::new();
    search.query = "test".to_string();
    search.search(&entries);
    assert_eq!(search.results.len(), 1);
    search.toggle_regex();
    assert!(search.results.is_empty());

    search.search(&entries);
    assert_eq!(search.results.len(), 1);
    search.toggle_case_sensitive();
    assert!(search.results.is_empty());

    search.search(&entries);
    assert_eq!(search.results.len(), 1);
    search.toggle_search_contents();
    assert!(search.results.is_empty());
}

#[test]
fn test_search_in_file_caps_and_truncates() {
    let mut search = SearchMode::new();
    search.query = "hit".to_string();

    let long_line = format!("hit{}", "x".repeat(120));
    let lines: Vec<String> = vec![
        "hit one".to_string(),
        "miss".to_string(),
        "hit two".to_string(),
        long_line.clone(),
        "hit three".to_string(),
        "hit four".to_string(),
        "hit five".to_string(),
        "hit six".to_string(),
    ];
    let hits = search.search_in_file(&lines);
    assert_eq!(hits.len(), 5);
    assert_eq!(hits[0], (1, "hit one".to_string()));
    assert_eq!(hits[1], (3, "hit two".to_string()));
    let mut truncated: String = long_line.chars().take(100).collect();
    truncated.push_str("...");
    assert_eq!(hits[2], (4, truncated));
}

#[test]
fn test_is_text_file() {
    let search = SearchMode::new();
    assert!(search.is_text_file("notes.txt"));
    assert!(search.is_text_file("main.RS"));
    assert!(search.is_text_file("README"));
    assert!(search.is_text_file("Dockerfile"));
    assert!(!search.is_text_file("movie.mp4"));
    assert!(!search.is_text_file("mystery"));
}
