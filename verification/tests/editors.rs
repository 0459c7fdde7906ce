use fsnav::keys::Key;
use fsnav::managers::ownership::{ChownInterface, Focus, GroupInfo, UserInfo, filter_users};
use fsnav::permissions::{ChmodInterface, preserve_file_type};

fn paths(ps: &[&str]) -> Vec<String> {
    ps.iter().map(|p| p.to_string()).collect()
}

fn users() -> Vec<UserInfo> {
    vec![
        UserInfo { uid: 0, name: "root".to_string(), full_name: None },
        UserInfo { uid: 1000, name: "alice".to_string(), full_name: Some("Alice".to_string()) },
        UserInfo { uid: 1001, name: "bob".to_string(), full_name: None },
    ]
}

fn groups() -> Vec<GroupInfo> {
    vec![
        GroupInfo { gid: 0, name: "root".to_string() },
        GroupInfo { gid: 50, name: "staff".to_string() },
    ]
}

#[test]
fn test_chmod_initial_digits() {
    let editor = ChmodInterface::new(paths(&["/tmp/a"]), Some(0o755));
    assert_eq!(editor.digits, vec![7, 5, 5]);
    assert_eq!(editor.position, 0);

    let fallback = ChmodInterface::new(paths(&["/tmp/a"]), None);
    assert_eq!(fallback.digits, vec![6, 4, 4]);
}

#[test]
fn test_chmod_cursor_and_digits_clamp() {
    let mut editor = ChmodInterface::new(paths(&["/tmp/a"]), Some(0o644));
    for _ in 0..5 {
        editor.handle_input(Key::Left);
    }
    assert_eq!(editor.position, 0);
    for _ in 0..7 {
        editor.handle_input(Key::Right);
    }
    assert_eq!(editor.position, 2);
    for _ in 0..12 {
        editor.handle_input(Key::Up);
    }
    assert_eq!(editor.digits[2], 7);
    for _ in 0..12 {
        editor.handle_input(Key::Down);
    }
    assert_eq!(editor.digits[2], 0);
}

#[test]
fn test_chmod_template_cursor_clamp() {
    let mut editor = ChmodInterface::new(paths(&["/tmp/a"]), None);
    editor.handle_input(Key::Char('t'));
    assert!(editor.show_templates);
    for _ in 0..15 {
        editor.handle_input(Key::Down);
    }
    assert_eq!(editor.template_index, 9);
    for _ in 0..15 {
        editor.handle_input(Key::Up);
    }
    assert_eq!(editor.template_index, 0);
}

#[test]
fn test_chmod_octal_round_trip() {
    let editor = ChmodInterface::new(paths(&["/tmp/a"]), Some(0o755));
    assert_eq!(editor.combined_mode(), 493);
    assert_eq!(editor.get_visual_permissions(), "rwxr-xr-x");

    let other = ChmodInterface::new(paths(&["/tmp/a"]), Some(0o644));
    assert_eq!(other.get_visual_permissions(), "rw-r--r--");
}

#[test]
fn test_chmod_template_apply() {
    let mut editor = ChmodInterface::new(paths(&["/tmp/a"]), None);
    editor.handle_input(Key::Char('t'));
    let still_open = editor.handle_input(Key::Enter);
    assert!(!still_open);
    assert!(editor.apply_requested);
    assert_eq!(editor.digits, vec![7, 5, 5]);
}

#[test]
fn test_chmod_escape_does_not_apply() {
    let mut editor = ChmodInterface::new(paths(&["/tmp/a"]), None);
    let still_open = editor.handle_input(Key::Esc);
    assert!(!still_open);
    assert!(!editor.apply_requested);
}

#[test]
fn test_chmod_explanations() {
    let editor = ChmodInterface::new(paths(&["/tmp/a"]), Some(0o777));
    assert_eq!(editor.digit_to_permissions(7), "read, write, execute/enter");
    assert_eq!(editor.digit_to_permissions(6), "read, write");
    assert_eq!(editor.digit_to_permissions(0), "nothing (no access)");
    let lines = editor.get_explanations();
    assert_eq!(lines.len(), 4);
    assert_eq!(lines[0], "Owner can: read, write, execute/enter");
    assert_eq!(lines[3], "\u{26a0}\u{fe0f} VERY INSECURE - Anyone can do anything!");
}

#[test]
fn test_preserve_file_type_bits() {
    assert_eq!(preserve_file_type(0o100644, 0o755), 0o100755);
    assert_eq!(preserve_file_type(0o040755, 0o700), 0o040700);
}

#[test]
fn test_critical_path_warnings() {
    let warnings = ChownInterface::check_critical_paths(&paths(&["/etc/passwd"]));
    assert_eq!(warnings.len(), 1);
    assert!(warnings[0].contains("/etc/passwd"));

    let none = ChownInterface::check_critical_paths(&paths(&["/home/user/file"]));
    assert_eq!(none.len(), 0);
}

#[test]
fn test_chown_starts_on_current_ownership() {
    let session = ChownInterface::new(paths(&["/home/user/file"]), users(), groups(), 1000, 50);
    assert_eq!(session.selected_user_idx, 1);
    assert_eq!(session.selected_group_idx, 1);
    assert_eq!(session.focus, Focus::UserList);
    assert!(session.warnings.is_empty());
    assert!(session.history.is_empty());
}

#[test]
fn test_chown_filter_typing() {
    let mut session = ChownInterface::new(paths(&["/home/user/file"]), users(), groups(), 0, 0);
    session.handle_input(Key::Char('a'));
    assert_eq!(session.user_search, "a");
    assert_eq!(session.selected_user_idx, 0);
    let filtered = filter_users(&session.users, "a");
    assert_eq!(filtered.len(), 1);
    assert_eq!(filtered[0].name, "alice");
    session.handle_input(Key::Backspace);
    assert_eq!(session.user_search, "");
}

#[test]
fn test_chown_confirmation_step() {
    let mut session = ChownInterface::new(paths(&["/etc/hosts"]), users(), groups(), 0, 0);
    assert_eq!(session.warnings.len(), 1);
    let still_open = session.handle_input(Key::Enter);
    assert!(still_open);
    assert_eq!(session.focus, Focus::Confirm);
    let still_open = session.handle_input(Key::Char('y'));
    assert!(!still_open);
    assert!(session.apply_requested);
}

#[test]
fn test_chown_confirm_escape_revises() {
    let mut session = ChownInterface::new(paths(&["/etc/hosts"]), users(), groups(), 0, 0);
    session.handle_input(Key::Enter);
    assert_eq!(session.focus, Focus::Confirm);
    let still_open = session.handle_input(Key::Esc);
    assert!(still_open);
    assert_eq!(session.focus, Focus::UserList);
}

#[test]
fn test_chown_apply_records_history() {
    let mut session = ChownInterface::new(paths(&["/home/a", "/home/b"]), users(), groups(), 0, 0);
    session.handle_input(Key::Down);
    let resolved = session.apply_ownership_changes(&vec![(0, 0), (1000, 50)]);
    assert_eq!(resolved, Some((1000, 0)));
    assert_eq!(session.history.len(), 2);
    assert_eq!(session.history[0].path, "/home/a");
    assert_eq!(session.history[0].old_uid, 0);
    assert_eq!(session.history[1].old_uid, 1000);
    assert_eq!(session.history[1].new_uid, 1000);
    assert_eq!(session.history[1].new_gid, 0);
}

#[test]
fn test_chown_focus_cycle() {
    let mut session = ChownInterface::new(paths(&["/home/a"]), users(), groups(), 0, 0);
    session.handle_input(Key::Tab);
    assert_eq!(session.focus, Focus::GroupList);
    session.handle_input(Key::Tab);
    assert_eq!(session.focus, Focus::Options);
    session.handle_input(Key::Tab);
    assert_eq!(session.focus, Focus::UserList);
}

#[test]
fn test_chown_recursive_toggle() {
    let mut session = ChownInterface::new(paths(&["/home/a"]), users(), groups(), 0, 0);
    assert!(!session.recursive);
    session.handle_input(Key::Char('r'));
    assert!(session.recursive);
    session.handle_input(Key::Char('r'));
    assert!(!session.recursive);
}
