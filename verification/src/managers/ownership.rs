//! The interactive ownership editor: system user and group pickers with
//! independent search filters, a recursive-apply option, critical-path
//! warnings and an explicit confirmation step. A pure state machine — the
//! embedder loads the account lists at session start and performs the
//! ownership changes once the editor reports that it is done.

use vstd::prelude::*;
use crate::keys::Key;
use crate::text::{alphanumeric, char_is_alphanumeric, contains_seq, lower_of, lowercase, pop_char, prefix_of, push_char, str_contains, str_starts_with};

verus! {

/// One system user: id, login name, optional display name.
#[derive(Debug)]
pub struct UserInfo {
    pub uid: u32,
    pub name: String,
    pub full_name: Option<String>,
}

impl Clone for UserInfo {
    fn clone(&self) -> (r: Self)
        ensures
            r == *self,
    {
        UserInfo {
            uid: self.uid,
            name: self.name.clone(),
            full_name: match &self.full_name {
                Some(f) => Some(f.clone()),
                None => None,
            },
        }
    }
}

/// One system group: id and name.
#[derive(Debug)]
pub struct GroupInfo {
    pub gid: u32,
    pub name: String,
}

impl Clone for GroupInfo {
    fn clone(&self) -> (r: Self)
        ensures
            r == *self,
    {
        GroupInfo { gid: self.gid, name: self.name.clone() }
    }
}

/// A pre-change snapshot recorded in the history log on apply.
#[derive(Debug)]
pub struct OwnershipChange {
    pub path: String,
    pub old_uid: u32,
    pub old_gid: u32,
    pub new_uid: u32,
    pub new_gid: u32,
}

/// Which part of the editor has input focus.
#[derive(Debug, Clone, Copy, PartialEq, Eq, Structural)]
pub enum Focus {
    UserList,
    GroupList,
    Options,
    Confirm,
}

/// Interactive user/group ownership editor over a set of target paths.
#[derive(Debug)]
pub struct ChownInterface {
    pub selected_paths: Vec<String>,
    pub users: Vec<UserInfo>,
    pub groups: Vec<GroupInfo>,
    /// Selected index into the *filtered* user view.
    pub selected_user_idx: usize,
    /// Selected index into the *filtered* group view.
    pub selected_group_idx: usize,
    pub user_search: String,
    pub group_search: String,
    pub focus: Focus,
    pub show_preview: bool,
    pub recursive: bool,
    /// Pre-change snapshots, appended on apply.
    pub history: Vec<OwnershipChange>,
    /// Critical-path warnings, computed once at session start.
    pub warnings: Vec<String>,
    /// Set when the editor exited by applying; the embedder then changes
    /// ownership on every target, best effort.
    pub apply_requested: bool,
}

/// The editor's state as plain mathematical values.
pub struct ChownView {
    pub selected_paths: Seq<String>,
    pub users: Seq<UserInfo>,
    pub groups: Seq<GroupInfo>,
    pub selected_user_idx: int,
    pub selected_group_idx: int,
    pub user_search: Seq<char>,
    pub group_search: Seq<char>,
    pub focus: Focus,
    pub show_preview: bool,
    pub recursive: bool,
    pub history: Seq<OwnershipChange>,
    pub warnings: Seq<String>,
    pub apply_requested: bool,
}

impl View for ChownInterface {
    type V = ChownView;

    open spec fn view(&self) -> ChownView {
        ChownView {
            selected_paths: self.selected_paths@,
            users: self.users@,
            groups: self.groups@,
            selected_user_idx: self.selected_user_idx as int,
            selected_group_idx: self.selected_group_idx as int,
            user_search: self.user_search@,
            group_search: self.group_search@,
            focus: self.focus,
            show_preview: self.show_preview,
            recursive: self.recursive,
            history: self.history@,
            warnings: self.warnings@,
            apply_requested: self.apply_requested,
        }
    }
}

/// Whether a record's name passes a search filter: the empty filter passes
/// everything, otherwise matching is case-folded containment.
pub open spec fn name_passes(name: Seq<char>, search: Seq<char>) -> bool {
    search.len() == 0 || contains_seq(lower_of(name), lower_of(search))
}

/// The users that pass the filter, in list order.
pub open spec fn filtered_users(users: Seq<UserInfo>, search: Seq<char>) -> Seq<UserInfo>
    decreases users.len(),
{
    if users.len() == 0 {
        Seq::<UserInfo>::empty()
    } else {
        let pre = filtered_users(users.drop_last(), search);
        if name_passes(users.last().name@, search) {
            pre.push(users.last())
        } else {
            pre
        }
    }
}

/// The groups that pass the filter, in list order.
pub open spec fn filtered_groups(groups: Seq<GroupInfo>, search: Seq<char>) -> Seq<GroupInfo>
    decreases groups.len(),
{
    if groups.len() == 0 {
        Seq::<GroupInfo>::empty()
    } else {
        let pre = filtered_groups(groups.drop_last(), search);
        if name_passes(groups.last().name@, search) {
            pre.push(groups.last())
        } else {
            pre
        }
    }
}

/// The fixed list of sensitive system prefixes that raise a warning.
pub open spec fn crit_prefixes() -> Seq<Seq<char>> {
    seq![
        "/etc"@, "/bin"@, "/sbin"@, "/usr/bin"@, "/usr/sbin"@, "/boot"@,
        "/lib"@, "/lib64"@, "/proc"@, "/sys"@, "/dev"@,
    ]
}

/// The warning line for one target in a critical directory.
pub open spec fn warning_for(path: Seq<char>) -> Seq<char> {
    "\u{26a0}\u{fe0f} "@ + path + " is in a critical system directory!"@
}

/// One warning per prefix of the fixed list that the path starts with.
pub open spec fn path_warnings(path: Seq<char>, prefixes: Seq<Seq<char>>) -> Seq<Seq<char>>
    decreases prefixes.len(),
{
    if prefixes.len() == 0 {
        Seq::<Seq<char>>::empty()
    } else {
        let pre = path_warnings(path, prefixes.drop_last());
        if prefix_of(prefixes.last(), path) {
            pre.push(warning_for(path))
        } else {
            pre
        }
    }
}

/// All warnings for a set of targets, one per (target, matching prefix)
/// pair, in target order.
pub open spec fn warnings_of(paths: Seq<String>) -> Seq<Seq<char>>
    decreases paths.len(),
{
    if paths.len() == 0 {
        Seq::<Seq<char>>::empty()
    } else {
        warnings_of(paths.drop_last()) + path_warnings(paths.last()@, crit_prefixes())
    }
}

/// An index into the filtered view, clamped to its bounds so that a filter
/// that shrank after the index was set is tolerated (meaningful only for a
/// non-empty view).
pub open spec fn clamped(idx: int, len: int) -> int {
    if idx <= len - 1 { idx } else { len - 1 }
}

/// The user and group an apply would resolve to: the clamped selections in
/// the two filtered views, or nothing when either view is empty.
pub open spec fn resolved_spec(s: ChownView) -> Option<(u32, u32)> {
    let fu = filtered_users(s.users, s.user_search);
    let fg = filtered_groups(s.groups, s.group_search);
    if fu.len() > 0 && fg.len() > 0 {
        Some((fu[clamped(s.selected_user_idx, fu.len() as int)].uid,
              fg[clamped(s.selected_group_idx, fg.len() as int)].gid))
    } else {
        None::<(u32, u32)>
    }
}

/// One step of the editor: the state after the key, and whether the editor
/// stays open.
pub open spec fn chown_step(s: ChownView, key: Key) -> (ChownView, bool) {
    if s.focus is Confirm {
        match key {
            Key::Enter => (ChownView { apply_requested: true, ..s }, false),
            Key::Char(c) => if c == 'y' || c == 'Y' {
                (ChownView { apply_requested: true, ..s }, false)
            } else if c == 'n' || c == 'N' {
                (s, false)
            } else {
                (s, true)
            },
            Key::Esc => (ChownView { focus: Focus::UserList, ..s }, true),
            _ => (s, true),
        }
    } else {
        match key {
            Key::Tab => (
                ChownView {
                    focus: match s.focus {
                        Focus::UserList => Focus::GroupList,
                        Focus::GroupList => Focus::Options,
                        Focus::Options => Focus::UserList,
                        Focus::Confirm => Focus::Confirm,
                    },
                    ..s
                },
                true,
            ),
            Key::Up => if s.focus is UserList {
                let fu = filtered_users(s.users, s.user_search);
                if fu.len() > 0 && s.selected_user_idx > 0 {
                    (ChownView { selected_user_idx: s.selected_user_idx - 1, ..s }, true)
                } else {
                    (s, true)
                }
            } else if s.focus is GroupList {
                let fg = filtered_groups(s.groups, s.group_search);
                if fg.len() > 0 && s.selected_group_idx > 0 {
                    (ChownView { selected_group_idx: s.selected_group_idx - 1, ..s }, true)
                } else {
                    (s, true)
                }
            } else {
                (s, true)
            },
            Key::Down => if s.focus is UserList {
                let fu = filtered_users(s.users, s.user_search);
                if fu.len() > 0 && s.selected_user_idx < fu.len() - 1 {
                    (ChownView { selected_user_idx: s.selected_user_idx + 1, ..s }, true)
                } else {
                    (s, true)
                }
            } else if s.focus is GroupList {
                let fg = filtered_groups(s.groups, s.group_search);
                if fg.len() > 0 && s.selected_group_idx < fg.len() - 1 {
                    (ChownView { selected_group_idx: s.selected_group_idx + 1, ..s }, true)
                } else {
                    (s, true)
                }
            } else {
                (s, true)
            },
            Key::Backspace => if s.focus is UserList {
                (ChownView {
                    user_search: if s.user_search.len() > 0 { s.user_search.drop_last() } else { s.user_search },
                    selected_user_idx: 0,
                    ..s
                }, true)
            } else if s.focus is GroupList {
                (ChownView {
                    group_search: if s.group_search.len() > 0 { s.group_search.drop_last() } else { s.group_search },
                    selected_group_idx: 0,
                    ..s
                }, true)
            } else {
                (s, true)
            },
            Key::Char(c) => if c == ' ' && s.focus is Options {
                (ChownView { recursive: !s.recursive, ..s }, true)
            } else if c == 'r' || c == 'R' {
                (ChownView { recursive: !s.recursive, ..s }, true)
            } else if c == 'p' || c == 'P' {
                (ChownView { show_preview: !s.show_preview, ..s }, true)
            } else if alphanumeric(c) || c == '_' || c == '-' {
                if s.focus is UserList {
                    (ChownView { user_search: s.user_search.push(c), selected_user_idx: 0, ..s }, true)
                } else if s.focus is GroupList {
                    (ChownView { group_search: s.group_search.push(c), selected_group_idx: 0, ..s }, true)
                } else {
                    (s, true)
                }
            } else {
                (s, true)
            },
            Key::Enter => if s.warnings.len() > 0 {
                (ChownView { focus: Focus::Confirm, ..s }, true)
            } else {
                (ChownView { apply_requested: true, ..s }, false)
            },
            Key::Esc => (s, false),
            _ => (s, true),
        }
    }
}

/// The history records one apply appends: one pre-change snapshot per
/// target, in target order.
pub open spec fn change_records(paths: Seq<String>, olds: Seq<(u32, u32)>, new_uid: u32, new_gid: u32) -> Seq<OwnershipChange> {
    Seq::new(paths.len(), |i: int| OwnershipChange {
        path: paths[i],
        old_uid: olds[i].0,
        old_gid: olds[i].1,
        new_uid: new_uid,
        new_gid: new_gid,
    })
}

/// The users of `users` that pass `search`, in order.
pub fn filter_users(users: &Vec<UserInfo>, search: &str) -> (r: Vec<UserInfo>)
    ensures
        r@ == filtered_users(users@, search@),
{
    let mut out: Vec<UserInfo> = Vec::new();
    let lower_search = lowercase(search);
    let empty = search.unicode_len() == 0;
    let mut i: usize = 0;
    while i < users.len()
        invariant
            0 <= i <= users@.len(),
            lower_search@ == lower_of(search@),
            empty == (search@.len() == 0),
            out@ == filtered_users(users@.take(i as int), search@),
        decreases users@.len() - i,
    {
        let u = &users[i];
        let passes = if empty {
            true
        } else {
            let ln = lowercase(u.name.as_str());
            str_contains(ln.as_str(), lower_search.as_str())
        };
        if passes {
            out.push(u.clone());
        }
        proof {
            assert(users@.take(i + 1).drop_last() =~= users@.take(i as int));
            assert(users@.take(i + 1).last() == users@[i as int]);
        }
        i = i + 1;
    }
    proof {
        assert(users@.take(users@.len() as int) =~= users@);
    }
    out
}

/// The groups of `groups` that pass `search`, in order.
pub fn filter_groups(groups: &Vec<GroupInfo>, search: &str) -> (r: Vec<GroupInfo>)
    ensures
        r@ == filtered_groups(groups@, search@),
{
    let mut out: Vec<GroupInfo> = Vec::new();
    let lower_search = lowercase(search);
    let empty = search.unicode_len() == 0;
    let mut i: usize = 0;
    while i < groups.len()
        invariant
            0 <= i <= groups@.len(),
            lower_search@ == lower_of(search@),
            empty == (search@.len() == 0),
            out@ == filtered_groups(groups@.take(i as int), search@),
        decreases groups@.len() - i,
    {
        let g = &groups[i];
        let passes = if empty {
            true
        } else {
            let ln = lowercase(g.name.as_str());
            str_contains(ln.as_str(), lower_search.as_str())
        };
        if passes {
            out.push(g.clone());
        }
        proof {
            assert(groups@.take(i + 1).drop_last() =~= groups@.take(i as int));
            assert(groups@.take(i + 1).last() == groups@[i as int]);
        }
        i = i + 1;
    }
    proof {
        assert(groups@.take(groups@.len() as int) =~= groups@);
    }
    out
}

impl ChownInterface {
    /// The fixed sensitive prefixes, as executable strings.
    fn critical_prefix_list() -> (r: Vec<&'static str>)
        ensures
            r@.map_values(|s: &str| s@) == crit_prefixes(),
    {
        let mut v: Vec<&'static str> = Vec::new();
        v.push("/etc");
        v.push("/bin");
        v.push("/sbin");
        v.push("/usr/bin");
        v.push("/usr/sbin");
        v.push("/boot");
        v.push("/lib");
        v.push("/lib64");
        v.push("/proc");
        v.push("/sys");
        v.push("/dev");
        proof {
            assert(v@.map_values(|s: &str| s@) =~= crit_prefixes());
        }
        v
    }

    /// One warning per target path per sensitive prefix it starts with.
    pub fn check_critical_paths(paths: &Vec<String>) -> (r: Vec<String>)
        ensures
            r@.map_values(|w: String| w@) == warnings_of(paths@),
    {
        let prefixes = Self::critical_prefix_list();
        let mut out: Vec<String> = Vec::new();
        let mut i: usize = 0;
        while i < paths.len()
            invariant
                0 <= i <= paths@.len(),
                prefixes@.map_values(|s: &str| s@) == crit_prefixes(),
                out@.map_values(|w: String| w@) == warnings_of(paths@.take(i as int)),
            decreases paths@.len() - i,
        {
            let p = &paths[i];
            let mut j: usize = 0;
            while j < prefixes.len()
                invariant
                    0 <= j <= prefixes@.len(),
                    0 <= i < paths@.len(),
                    p == &paths@[i as int],
                    prefixes@.map_values(|s: &str| s@) == crit_prefixes(),
                    out@.map_values(|w: String| w@) == warnings_of(paths@.take(i as int))
                        + path_warnings(p@, crit_prefixes().take(j as int)),
                decreases prefixes@.len() - j,
            {
                let ghost out0 = out@;
                let ghost acc0 = warnings_of(paths@.take(i as int)) + path_warnings(p@, crit_prefixes().take(j as int));
                proof {
                    assert(prefixes@.map_values(|s: &str| s@)[j as int] == prefixes@[j as int]@);
                    assert(crit_prefixes().take(j + 1).drop_last() =~= crit_prefixes().take(j as int));
                    assert(crit_prefixes().take(j + 1).last() == crit_prefixes()[j as int]);
                }
                if str_starts_with(p.as_str(), prefixes[j]) {
                    let mut w = String::from_str("\u{26a0}\u{fe0f} ");
                    w.append(p.as_str());
                    w.append(" is in a critical system directory!");
                    proof {
                        assert(w@ =~= warning_for(p@));
                    }
                    out.push(w);
                    proof {
                        assert(out@ == out0.push(out@.last()));
                        assert(out@.last()@ == warning_for(p@));
                        assert(path_warnings(p@, crit_prefixes().take(j + 1))
                            == path_warnings(p@, crit_prefixes().take(j as int)).push(warning_for(p@)));
                        assert(out@.map_values(|w: String| w@) =~= acc0.push(warning_for(p@)));
                    }
                } else {
                    proof {
                        assert(path_warnings(p@, crit_prefixes().take(j + 1))
                            == path_warnings(p@, crit_prefixes().take(j as int)));
                    }
                }
                proof {
                    assert(out@.map_values(|w: String| w@) == warnings_of(paths@.take(i as int))
                        + path_warnings(p@, crit_prefixes().take(j + 1)));
                }
                j = j + 1;
            }
            proof {
                assert(crit_prefixes().take(prefixes@.len() as int) =~= crit_prefixes());
                assert(paths@.take(i + 1).drop_last() =~= paths@.take(i as int));
                assert(paths@.take(i + 1).last() == paths@[i as int]);
            }
            i = i + 1;
        }
        proof {
            assert(paths@.take(paths@.len() as int) =~= paths@);
        }
        out
    }

    /// A fresh editor session for the given targets. The embedder supplies
    /// the system account lists and the current ownership of the first
    /// target; the selections start on those accounts when present, else at
    /// the top. The warnings list is computed here, once, and never again.
    pub fn new(selected_paths: Vec<String>, users: Vec<UserInfo>, groups: Vec<GroupInfo>, current_uid: u32, current_gid: u32) -> (s: Self)
        ensures
            s@.selected_paths == selected_paths@,
            s@.users == users@,
            s@.groups == groups@,
            ({
                let idx = s@.selected_user_idx;
                if exists|k: int| 0 <= k < users@.len() && users@[k].uid == current_uid {
                    &&& 0 <= idx < users@.len()
                    &&& users@[idx].uid == current_uid
                    &&& forall|k: int| 0 <= k < idx ==> users@[k].uid != current_uid
                } else {
                    idx == 0
                }
            }),
            ({
                let idx = s@.selected_group_idx;
                if exists|k: int| 0 <= k < groups@.len() && groups@[k].gid == current_gid {
                    &&& 0 <= idx < groups@.len()
                    &&& groups@[idx].gid == current_gid
                    &&& forall|k: int| 0 <= k < idx ==> groups@[k].gid != current_gid
                } else {
                    idx == 0
                }
            }),
            s@.user_search.len() == 0,
            s@.group_search.len() == 0,
            s@.focus == Focus::UserList,
            s@.show_preview == true,
            s@.recursive == false,
            s@.history.len() == 0,
            s@.warnings.map_values(|w: String| w@) == warnings_of(selected_paths@),
            s@.apply_requested == false,
    {
        let warnings = Self::check_critical_paths(&selected_paths);

        let mut user_idx: usize = 0;
        let mut found_user: bool = false;
        let mut i: usize = 0;
        while i < users.len() && !found_user
            invariant
                0 <= i <= users@.len(),
                !found_user ==> user_idx == 0 && forall|k: int| 0 <= k < i ==> users@[k].uid != current_uid,
                found_user ==> user_idx < users@.len() && users@[user_idx as int].uid == current_uid
                    && forall|k: int| 0 <= k < user_idx ==> users@[k].uid != current_uid,
            decreases users@.len() - i + (if found_user { 0int } else { 1int }),
        {
            if users[i].uid == current_uid {
                user_idx = i;
                found_user = true;
            } else {
                i = i + 1;
            }
        }

        let mut group_idx: usize = 0;
        let mut found_group: bool = false;
        let mut j: usize = 0;
        while j < groups.len() && !found_group
            invariant
                0 <= j <= groups@.len(),
                !found_group ==> group_idx == 0 && forall|k: int| 0 <= k < j ==> groups@[k].gid != current_gid,
                found_group ==> group_idx < groups@.len() && groups@[group_idx as int].gid == current_gid
                    && forall|k: int| 0 <= k < group_idx ==> groups@[k].gid != current_gid,
            decreases groups@.len() - j + (if found_group { 0int } else { 1int }),
        {
            if groups[j].gid == current_gid {
                group_idx = j;
                found_group = true;
            } else {
                j = j + 1;
            }
        }

        ChownInterface {
            selected_paths,
            users,
            groups,
            selected_user_idx: user_idx,
            selected_group_idx: group_idx,
            user_search: String::new(),
            group_search: String::new(),
            focus: Focus::UserList,
            show_preview: true,
            recursive: false,
            history: Vec::new(),
            warnings,
            apply_requested: false,
        }
    }

    /// Routes one key press; answers whether the editor stays open, as
    /// `chown_step` describes. With outstanding warnings, Enter first moves
    /// focus to the confirmation step instead of applying.
    pub fn handle_input(&mut self, key: Key) -> (cont: bool)
        ensures
            final(self)@ == chown_step(old(self)@, key).0,
            cont == chown_step(old(self)@, key).1,
    {
        match self.focus {
            Focus::Confirm => {
                match key {
                    Key::Enter => {
                        self.apply_requested = true;
                        false
                    },
                    Key::Char(c) => {
                        if c == 'y' || c == 'Y' {
                            self.apply_requested = true;
                            false
                        } else if c == 'n' || c == 'N' {
                            false
                        } else {
                            true
                        }
                    },
                    Key::Esc => {
                        self.focus = Focus::UserList;
                        true
                    },
                    _ => true,
                }
            },
            _ => {
                match key {
                    Key::Tab => {
                        self.focus = match self.focus {
                            Focus::UserList => Focus::GroupList,
                            Focus::GroupList => Focus::Options,
                            Focus::Options => Focus::UserList,
                            Focus::Confirm => Focus::Confirm,
                        };
                        true
                    },
                    Key::Up => {
                        match self.focus {
                            Focus::UserList => {
                                let fu = filter_users(&self.users, self.user_search.as_str());
                                if fu.len() > 0 && self.selected_user_idx > 0 {
                                    self.selected_user_idx = self.selected_user_idx - 1;
                                }
                            },
                            Focus::GroupList => {
                                let fg = filter_groups(&self.groups, self.group_search.as_str());
                                if fg.len() > 0 && self.selected_group_idx > 0 {
                                    self.selected_group_idx = self.selected_group_idx - 1;
                                }
                            },
                            _ => {},
                        }
                        true
                    },
                    Key::Down => {
                        match self.focus {
                            Focus::UserList => {
                                let fu = filter_users(&self.users, self.user_search.as_str());
                                if fu.len() > 0 && self.selected_user_idx < fu.len() - 1 {
                                    self.selected_user_idx = self.selected_user_idx + 1;
                                }
                            },
                            Focus::GroupList => {
                                let fg = filter_groups(&self.groups, self.group_search.as_str());
                                if fg.len() > 0 && self.selected_group_idx < fg.len() - 1 {
                                    self.selected_group_idx = self.selected_group_idx + 1;
                                }
                            },
                            _ => {},
                        }
                        true
                    },
                    Key::Backspace => {
                        match self.focus {
                            Focus::UserList => {
                                pop_char(&mut self.user_search);
                                self.selected_user_idx = 0;
                            },
                            Focus::GroupList => {
                                pop_char(&mut self.group_search);
                                self.selected_group_idx = 0;
                            },
                            _ => {},
                        }
                        true
                    },
                    Key::Char(c) => {
                        if c == ' ' && self.focus == Focus::Options {
                            self.recursive = !self.recursive;
                        } else if c == 'r' || c == 'R' {
                            self.recursive = !self.recursive;
                        } else if c == 'p' || c == 'P' {
                            self.show_preview = !self.show_preview;
                        } else if char_is_alphanumeric(c) || c == '_' || c == '-' {
                            match self.focus {
                                Focus::UserList => {
                                    push_char(&mut self.user_search, c);
                                    self.selected_user_idx = 0;
                                },
                                Focus::GroupList => {
                                    push_char(&mut self.group_search, c);
                                    self.selected_group_idx = 0;
                                },
                                _ => {},
                            }
                        }
                        true
                    },
                    Key::Enter => {
                        if self.warnings.len() > 0 {
                            self.focus = Focus::Confirm;
                            true
                        } else {
                            self.apply_requested = true;
                            false
                        }
                    },
                    Key::Esc => false,
                    _ => true,
                }
            },
        }
    }

    /// The user and group an apply would resolve to, as `resolved_spec`
    /// describes: the clamped selections in the filtered views.
    pub fn resolved_target(&self) -> (r: Option<(u32, u32)>)
        ensures
            r == resolved_spec(self@),
    {
        let fu = filter_users(&self.users, self.user_search.as_str());
        let fg = filter_groups(&self.groups, self.group_search.as_str());
        if fu.len() > 0 && fg.len() > 0 {
            let ui = if self.selected_user_idx <= fu.len() - 1 { self.selected_user_idx } else { fu.len() - 1 };
            let gi = if self.selected_group_idx <= fg.len() - 1 { self.selected_group_idx } else { fg.len() - 1 };
            Some((fu[ui].uid, fg[gi].gid))
        } else {
            None
        }
    }

    /// Resolves the selected user and group and records one pre-change
    /// snapshot per target into the history, given the targets' current
    /// ownership; answers what the embedder should set, or nothing when a
    /// filter left no user or no group to pick. Setting the ownership on
    /// each target — recursively when the flag is set — is the embedder's
    /// job, best effort, one target at a time.
    pub fn apply_ownership_changes(&mut self, old_owners: &Vec<(u32, u32)>) -> (r: Option<(u32, u32)>)
        requires
            old_owners@.len() == old(self)@.selected_paths.len(),
        ensures
            r == resolved_spec(old(self)@),
            (match r {
                Some(t) => final(self)@ == (ChownView {
                    history: old(self)@.history
                        + change_records(old(self)@.selected_paths, old_owners@, t.0, t.1),
                    ..old(self)@
                }),
                None => *final(self) == *old(self),
            }),
    {
        let resolved = self.resolved_target();
        match resolved {
            Some((new_uid, new_gid)) => {
                let ghost h0 = self@.history;
                let mut i: usize = 0;
                while i < self.selected_paths.len()
                    invariant
                        0 <= i <= self@.selected_paths.len(),
                        old_owners@.len() == self@.selected_paths.len(),
                        self@.selected_paths == old(self)@.selected_paths,
                        self@.users == old(self)@.users,
                        self@.groups == old(self)@.groups,
                        self@.selected_user_idx == old(self)@.selected_user_idx,
                        self@.selected_group_idx == old(self)@.selected_group_idx,
                        self@.user_search == old(self)@.user_search,
                        self@.group_search == old(self)@.group_search,
                        self@.focus == old(self)@.focus,
                        self@.show_preview == old(self)@.show_preview,
                        self@.recursive == old(self)@.recursive,
                        self@.warnings == old(self)@.warnings,
                        self@.apply_requested == old(self)@.apply_requested,
                        h0 == old(self)@.history,
                        self@.history == h0 + change_records(self@.selected_paths, old_owners@, new_uid, new_gid).take(i as int),
                    decreases self@.selected_paths.len() - i,
                {
                    let path = self.selected_paths[i].clone();
                    let (old_uid, old_gid) = old_owners[i];
                    self.history.push(OwnershipChange {
                        path,
                        old_uid,
                        old_gid,
                        new_uid,
                        new_gid,
                    });
                    proof {
                        assert(self@.history =~= h0 + change_records(self@.selected_paths, old_owners@, new_uid, new_gid).take(i + 1));
                    }
                    i = i + 1;
                }
                proof {
                    let recs = change_records(self@.selected_paths, old_owners@, new_uid, new_gid);
                    assert(recs.take(recs.len() as int) =~= recs);
                }
                Some((new_uid, new_gid))
            },
            None => None,
        }
    }
}

} // verus!
