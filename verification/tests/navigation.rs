use fsnav::bookmarks::{Bookmark, BookmarkError, BookmarksManager};
use fsnav::keys::Key;
use fsnav::listing::{build_listing, error_listing, parent_of};
use fsnav::models::file_entry::FileEntry;
use fsnav::navigator::{NavAction, Navigator, NavigatorMode};
use fsnav::split_pane::{Pane, PaneFocus, SplitPaneView};

fn entry(name: &str, is_dir: bool) -> FileEntry {
    FileEntry {
        name: name.to_string(),
        path: format!("/data/{}", name),
        is_dir,
        is_accessible: true,
        is_symlink: false,
        permissions: None,
        owner: None,
        group: None,
        uid: None,
        gid: None,
    }
}

#[test]
fn test_listing_order() {
    let children = vec![
        entry("z.txt", false),
        entry("b", true),
        entry("a.txt", false),
        entry("A", true),
    ];
    let listing = build_listing("/data", &children);
    let names: Vec<&str> = listing.iter().map(|e| e.name.as_str()).collect();
    assert_eq!(names, vec!["..", "A", "b", "a.txt", "z.txt"]);
    assert!(listing[1].is_dir && listing[2].is_dir);
    assert!(!listing[3].is_dir && !listing[4].is_dir);
}

#[test]
fn test_listing_hides_dot_files() {
    let children = vec![entry(".hidden", false), entry("shown", false)];
    let listing = build_listing("/", &children);
    let names: Vec<&str> = listing.iter().map(|e| e.name.as_str()).collect();
    assert_eq!(names, vec!["shown"]);
}

#[test]
fn test_error_listing() {
    let listing = error_listing("/locked", "\u{26a0}\u{fe0f}  Error: permission denied".to_string());
    assert_eq!(listing.len(), 2);
    assert_eq!(listing[0].name, "..");
    assert!(!listing[1].is_accessible);
}

#[test]
fn test_parent_of() {
    assert_eq!(parent_of("/a/b"), Some("/a".to_string()));
    assert_eq!(parent_of("/a"), Some("/".to_string()));
    assert_eq!(parent_of("/"), None);
}

#[test]
fn test_pattern_select_marks_and_reports() {
    let mut nav = Navigator::new("/".to_string(), true, 30, BookmarksManager::new());
    let children = vec![entry("alice.txt", false), entry("alien", false), entry("bob", false)];
    nav.load_directory("/", &children);
    nav.pattern_input = "ali*".to_string();
    nav.select_by_pattern();
    assert_eq!(nav.selected_items, vec![0, 1]);
    assert_eq!(nav.status_message, Some("Selected 2 items matching 'ali*'".to_string()));
    assert_eq!(nav.pattern_input, "");
}

#[test]
fn test_chown_refused_without_privilege() {
    let mut nav = Navigator::new("/".to_string(), false, 30, BookmarksManager::new());
    let children = vec![entry("file", false)];
    nav.load_directory("/", &children);
    let targets = nav.open_chown_interface();
    assert!(targets.is_none());
    assert!(nav.chown_interface.is_none());
    assert_eq!(nav.mode, NavigatorMode::Browse);
    assert!(nav.status_message.is_some());
    let also = nav.handle_input(Key::Char('o'), false, 0);
    assert!(matches!(also, NavAction::Stay));
    assert!(nav.chown_interface.is_none());
}

#[test]
fn test_browse_navigation_keys() {
    let mut nav = Navigator::new("/data".to_string(), false, 30, BookmarksManager::new());
    let children = vec![entry("dir", true), entry("file", false)];
    nav.load_directory("/data", &children);
    assert_eq!(nav.selected_index, 0);

    nav.handle_input(Key::Down, false, 0);
    assert_eq!(nav.selected_index, 1);
    nav.handle_input(Key::Up, false, 0);
    assert_eq!(nav.selected_index, 0);

    nav.handle_input(Key::Down, false, 0);
    let into = nav.handle_input(Key::Enter, false, 0);
    assert!(matches!(into, NavAction::Load(p) if p == "/data/dir"));

    let up = nav.handle_input(Key::Left, false, 0);
    assert!(matches!(up, NavAction::Load(p) if p == "/"));

    let quit = nav.handle_input(Key::Char('q'), false, 0);
    assert!(matches!(quit, NavAction::Quit));
}

#[test]
fn test_search_mode_lifecycle() {
    let mut nav = Navigator::new("/data".to_string(), false, 30, BookmarksManager::new());
    let children = vec![entry("notes.txt", false), entry("other.rs", false)];
    nav.load_directory("/data", &children);

    nav.handle_input(Key::Char('f'), true, 0);
    assert_eq!(nav.mode, NavigatorMode::Search);

    for c in "notes".chars() {
        nav.handle_input(Key::Char(c), false, 0);
    }
    nav.handle_input(Key::Enter, false, 0);
    let results = nav.search_mode.as_ref().unwrap().results.len();
    assert_eq!(results, 1);
    assert_eq!(nav.entries[nav.selected_index].name, "notes.txt");

    nav.handle_input(Key::Esc, false, 0);
    assert_eq!(nav.mode, NavigatorMode::Browse);
    assert!(nav.search_mode.is_none());
}

#[test]
fn test_pattern_input_editing() {
    let mut nav = Navigator::new("/data".to_string(), true, 30, BookmarksManager::new());
    nav.load_directory("/data", &vec![entry("file", false)]);
    nav.handle_input(Key::Char('p'), false, 0);
    assert_eq!(nav.mode, NavigatorMode::PatternSelect);
    nav.handle_input(Key::Char('a'), false, 0);
    nav.handle_input(Key::Char('b'), false, 0);
    assert_eq!(nav.pattern_input, "ab");
    nav.handle_input(Key::Backspace, false, 0);
    assert_eq!(nav.pattern_input, "a");
    nav.handle_input(Key::Esc, false, 0);
    assert_eq!(nav.mode, NavigatorMode::Browse);
    assert_eq!(nav.pattern_input, "");
}

#[test]
fn test_pane_selection_and_paths() {
    let children = vec![entry("dir", true), entry("file", false)];
    let mut pane = Pane::new("/data", &children);
    assert_eq!(pane.entries.len(), 3);
    assert_eq!(pane.entries[0].name, "..");

    pane.toggle_selection();
    assert!(pane.get_selected_paths().is_empty());

    pane.move_down();
    pane.toggle_selection();
    pane.move_down();
    pane.toggle_selection();
    let selected = pane.get_selected_paths();
    assert_eq!(selected, vec!["/data/dir".to_string(), "/data/file".to_string()]);

    pane.toggle_selection();
    assert_eq!(pane.get_selected_paths(), vec!["/data/dir".to_string()]);
}

#[test]
fn test_split_view_focus_layout_and_ratio() {
    let children = vec![entry("file", false)];
    let left = Pane::new("/data", &children);
    let right = Pane::new("/", &children);
    let mut view = SplitPaneView::new(left, right);
    assert_eq!(view.focus, PaneFocus::Left);
    assert_eq!(view.split_percent, 50);

    view.toggle_focus();
    assert_eq!(view.focus, PaneFocus::Right);
    assert_eq!(view.sync_directories(), "/");

    assert!(view.vertical_split);
    view.toggle_layout();
    assert!(!view.vertical_split);

    for _ in 0..10 {
        view.adjust_split(-5);
    }
    assert_eq!(view.split_percent, 20);
    for _ in 0..20 {
        view.adjust_split(5);
    }
    assert_eq!(view.split_percent, 80);
}

#[test]
fn test_scroll_window_follows_highlight() {
    let children = vec![entry("file", false)];
    let mut pane = Pane::new("/", &children);
    pane.selected_index = 0;
    pane.scroll_offset = 0;
    pane.adjust_scroll_with_height(1);
    assert_eq!(pane.scroll_offset, 0);

    let many: Vec<FileEntry> = (0..20).map(|i| entry(&format!("f{:02}", i), false)).collect();
    let mut pane = Pane::new("/", &many);
    for _ in 0..15 {
        pane.move_down();
    }
    pane.adjust_scroll_with_height(5);
    assert_eq!(pane.scroll_offset, 11);
    assert!(pane.scroll_offset <= pane.selected_index);
    assert!(pane.selected_index < pane.scroll_offset + 5);
}

#[test]
fn test_bookmark_operations() {
    let mut manager = BookmarksManager::new();
    manager
        .add_bookmark("Test".to_string(), "/tmp/test".to_string(), Some('x'), 100)
        .unwrap();

    let hit = manager.get_bookmark_by_shortcut('x', 200);
    assert!(hit.is_some());
    let b = hit.unwrap();
    assert_eq!(b.access_count, 1);
    assert_eq!(b.last_accessed, Some(200));

    let index = manager.find_bookmark_by_path("/tmp/test");
    assert!(index.is_some());

    manager.remove_bookmark(index.unwrap()).unwrap();
    assert!(manager.get_bookmark_by_shortcut('x', 300).is_none());
}

#[test]
fn test_shortcut_conflicts() {
    let mut manager = BookmarksManager::new();
    manager
        .add_bookmark("Test1".to_string(), "/tmp/t1".to_string(), Some('x'), 0)
        .unwrap();
    let result = manager.add_bookmark("Test2".to_string(), "/tmp/t2".to_string(), Some('x'), 0);
    assert_eq!(result, Err(BookmarkError::ShortcutInUse));
}

#[test]
fn test_bookmark_errors() {
    let mut manager = BookmarksManager::new();
    manager
        .add_bookmark("Home".to_string(), "/home".to_string(), Some('h'), 0)
        .unwrap();
    assert_eq!(
        manager.add_bookmark("Again".to_string(), "/home".to_string(), None, 0),
        Err(BookmarkError::PathAlreadyBookmarked)
    );
    assert_eq!(manager.remove_bookmark(5), Err(BookmarkError::InvalidIndex));
    assert_eq!(manager.rename_bookmark(5, "New".to_string()), Err(BookmarkError::InvalidIndex));
    assert_eq!(manager.update_shortcut(0, Some('h')), Ok(()));

    manager
        .add_bookmark("Tmp".to_string(), "/tmp".to_string(), Some('t'), 0)
        .unwrap();
    assert_eq!(manager.update_shortcut(1, Some('h')), Err(BookmarkError::ShortcutInUse));
}

#[test]
fn test_available_shortcuts() {
    let mut manager = BookmarksManager::new();
    let all = manager.get_available_shortcuts();
    assert_eq!(all.len(), 36);
    assert_eq!(all[0], 'a');
    assert_eq!(all[26], '0');

    manager
        .add_bookmark("A".to_string(), "/a".to_string(), Some('a'), 0)
        .unwrap();
    let rest = manager.get_available_shortcuts();
    assert_eq!(rest.len(), 35);
    assert!(!rest.contains(&'a'));
}

#[test]
fn test_bookmark_sorting() {
    let mut manager = BookmarksManager::new();
    manager.add_bookmark("beta".to_string(), "/b".to_string(), None, 0).unwrap();
    manager.add_bookmark("alpha".to_string(), "/a".to_string(), None, 0).unwrap();
    manager.get_bookmark_by_index(1, 10);
    manager.sort_by_frequency();
    assert_eq!(manager.list_bookmarks()[0].name, "alpha");
    manager.sort_by_name();
    assert_eq!(manager.list_bookmarks()[0].name, "alpha");
    assert_eq!(manager.list_bookmarks()[1].name, "beta");
}

#[test]
fn test_from_list_drops_colliding_shortcuts() {
    let mk = |name: &str, path: &str, sc: Option<char>| Bookmark {
        name: name.to_string(),
        path: path.to_string(),
        shortcut: sc,
        created_at: 0,
        last_accessed: None,
        access_count: 0,
    };
    let manager = BookmarksManager::from_list(vec![
        mk("one", "/one", Some('x')),
        mk("two", "/two", Some('x')),
        mk("three", "/three", Some('y')),
    ]);
    let list = manager.list_bookmarks();
    assert_eq!(list[0].shortcut, Some('x'));
    assert_eq!(list[1].shortcut, None);
    assert_eq!(list[2].shortcut, Some('y'));
}

#[test]
fn test_bookmark_view_keys() {
    let mut nav = Navigator::new("/data".to_string(), false, 30, BookmarksManager::new());
    nav.load_directory("/data", &vec![entry("file", false)]);
    nav.bookmarks_manager
        .add_bookmark("root".to_string(), "/".to_string(), Some('r'), 0)
        .unwrap();
    nav.bookmarks_manager
        .add_bookmark("tmp".to_string(), "/tmp".to_string(), Some('t'), 0)
        .unwrap();

    nav.handle_input(Key::Char('b'), true, 0);
    assert_eq!(nav.mode, NavigatorMode::Bookmarks);
    assert_eq!(nav.bookmark_selected_index, Some(0));

    nav.handle_input(Key::Down, false, 0);
    assert_eq!(nav.bookmark_selected_index, Some(1));

    let go = nav.handle_input(Key::Enter, false, 50);
    assert!(matches!(go, NavAction::Load(p) if p == "/tmp"));
    assert_eq!(nav.mode, NavigatorMode::Browse);
    assert_eq!(nav.bookmarks_manager.list_bookmarks()[1].access_count, 1);
    assert_eq!(nav.bookmarks_manager.list_bookmarks()[1].last_accessed, Some(50));
}

#[test]
fn test_split_pane_mode_keys() {
    let mut nav = Navigator::new("/data".to_string(), false, 30, BookmarksManager::new());
    let children = vec![entry("dir", true)];
    nav.load_directory("/data", &children);

    let enter = nav.handle_input(Key::F(2), false, 0);
    match enter {
        NavAction::EnterSplitPane { left, right } => {
            assert_eq!(left, "/data");
            assert_eq!(right, "/");
        },
        _ => panic!("expected a dual-pane request"),
    }
    let left = Pane::new("/data", &children);
    let right = Pane::new("/", &children);
    nav.install_split_pane(SplitPaneView::new(left, right));
    assert_eq!(nav.mode, NavigatorMode::SplitPane);

    nav.handle_input(Key::Tab, false, 0);
    assert_eq!(nav.split_pane_view.as_ref().unwrap().focus, PaneFocus::Right);

    let sync = nav.handle_input(Key::F(5), false, 0);
    assert!(matches!(sync, NavAction::LoadOtherPane(d) if d == "/"));

    nav.handle_input(Key::Esc, false, 0);
    assert_eq!(nav.mode, NavigatorMode::Browse);
    assert!(nav.split_pane_view.is_none());
}
