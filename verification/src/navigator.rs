//! The navigator: owner of the current listing, selection, scroll and
//! mode, and the dispatcher that routes every key press to exactly one
//! handler. It is a pure state machine: whenever a step needs the
//! filesystem, the clock or the terminal, it answers with a `NavAction`
//! that tells the embedder what to do, and the embedder hands the results
//! back through the loading and installing methods.

use vstd::prelude::*;
use crate::bookmarks::{Bookmark, BookmarkError, BookmarksManager, available_shortcuts_spec, bump, candidate_shortcuts, path_bookmarked, shortcut_taken};
use crate::keys::Key;
use crate::listing::{build_listing, error_listing, is_listing_of, last_segment_of, last_segment, parent_dir, parent_of, parent_count};
use crate::managers::ownership::{ChownInterface, chown_step, resolved_spec};
use crate::models::file_entry::FileEntry;
use crate::permissions::{ChmodInterface, chmod_step};
use crate::preview::{FilePreview, max_scroll_of};
use crate::search::{SearchMode, search_results_spec};
use crate::split_pane::{Pane, PaneFocus, SplitPaneView, marks_distinct, toggled_marks, toggle_index, selected_paths_spec};
use crate::text::{alphanumeric, char_is_alphanumeric, clone_strings, dec_digits, pop_char, push_char, str_eq, u64_to_string};
use crate::utils::patterns::{match_pattern, match_pattern_spec};

verus! {

/// The exclusive interaction state: one mode is active at a time, and a
/// modal mode owns its session for as long as it is active.
#[derive(Debug, Clone, Copy, PartialEq, Eq, Structural)]
pub enum NavigatorMode {
    Browse,
    Select,
    ChmodInterface,
    ChownInterface,
    PatternSelect,
    Search,
    Preview,
    Bookmarks,
    SplitPane,
}

/// What the embedder must do after a step: nothing, or one piece of
/// outside work whose result comes back through a loading method.
#[derive(Debug)]
pub enum NavAction {
    /// Nothing to do.
    Stay,
    /// Leave the interactive view.
    Quit,
    /// Leave the interactive view and spawn a shell in this directory.
    SpawnShell(String),
    /// Probe this directory and hand the entries to `load_directory` (or an
    /// error message to `load_directory_error`).
    Load(String),
    /// A modal feature finished: probe the current directory again.
    Reload,
    /// A modal feature finished by applying: set these permission bits on
    /// every target, best effort, then probe the current directory again.
    ApplyPermissions { targets: Vec<String>, mode_bits: u32 },
    /// A modal feature finished by applying: set this ownership on every
    /// target — descending into directories when `recursive` — best
    /// effort, then probe the current directory again.
    ApplyOwnership { targets: Vec<String>, uid: u32, gid: u32, recursive: bool },
    /// Content search is on: scan the listed text files and append their
    /// line matches to the search session.
    SearchContents,
    /// Build a preview of this path and store it with `install_preview`.
    LoadPreview(String),
    /// Probe the first target's mode and open the permission editor with
    /// `install_chmod_interface`.
    OpenChmod { targets: Vec<String> },
    /// Load the account lists and the first target's ownership and open
    /// the ownership editor with `install_chown_interface`.
    OpenChown { targets: Vec<String> },
    /// Probe these two directories and open the dual-pane view with
    /// `install_split_pane`.
    EnterSplitPane { left: String, right: String },
    /// Probe this directory and load it into the focused pane.
    LoadPane(String),
    /// Probe this directory and load it into the non-focused pane.
    LoadOtherPane(String),
}

/// The integration hub: the single current listing with its selection and
/// scroll state, the active mode, and the live modal sessions.
#[derive(Debug)]
pub struct Navigator {
    pub current_dir: String,
    pub entries: Vec<FileEntry>,
    pub selected_index: usize,
    pub selected_items: Vec<usize>,
    pub scroll_offset: usize,
    pub terminal_height: u16,
    pub mode: NavigatorMode,
    pub is_root: bool,
    pub pattern_input: String,
    pub chmod_interface: Option<ChmodInterface>,
    pub chown_interface: Option<ChownInterface>,
    pub status_message: Option<String>,
    pub search_mode: Option<SearchMode>,
    pub file_preview: Option<FilePreview>,
    pub bookmarks_manager: BookmarksManager,
    pub split_pane_view: Option<SplitPaneView>,
    pub show_preview_panel: bool,
    pub bookmark_selected_index: Option<usize>,
    pub preview_focused: bool,
}

impl Navigator {
    /// Well-formedness: the highlight and marks stay within the listing,
    /// and a modal session exists exactly while its mode is active.
    pub open spec fn wf(self) -> bool {
        &&& (self.entries@.len() == 0 ==> self.selected_index == 0)
        &&& (self.entries@.len() > 0 ==> self.selected_index < self.entries@.len())
        &&& marks_distinct(self.selected_items@)
        &&& (forall|i: int| 0 <= i < self.selected_items@.len()
            ==> (#[trigger] self.selected_items@[i]) < self.entries@.len())
        &&& (self.mode == NavigatorMode::ChmodInterface <==> self.chmod_interface is Some)
        &&& (self.mode == NavigatorMode::ChownInterface <==> self.chown_interface is Some)
        &&& (self.mode == NavigatorMode::Search <==> self.search_mode is Some)
        &&& (self.mode == NavigatorMode::SplitPane <==> self.split_pane_view is Some)
        &&& (match self.chmod_interface {
            Some(c) => c@.wf(),
            None => true,
        })
        &&& (match self.search_mode {
            Some(s) => s.results@.len() == 0 || s.current_result_index < s.results@.len(),
            None => true,
        })
        &&& (match self.split_pane_view {
            Some(v) => v.left_pane.wf() && v.right_pane.wf(),
            None => true,
        })
    }

    /// A fresh navigator in browse mode over an empty listing; the
    /// embedder loads the starting directory right after.
    pub fn new(current_dir: String, is_root: bool, terminal_height: u16, bookmarks_manager: BookmarksManager) -> (nav: Self)
        ensures
            nav.wf(),
            nav.current_dir == current_dir,
            nav.entries@.len() == 0,
            nav.selected_index == 0,
            nav.selected_items@.len() == 0,
            nav.scroll_offset == 0,
            nav.terminal_height == terminal_height,
            nav.mode == NavigatorMode::Browse,
            nav.is_root == is_root,
            nav.pattern_input@.len() == 0,
            nav.chmod_interface is None,
            nav.chown_interface is None,
            nav.status_message is None,
            nav.search_mode is None,
            nav.file_preview is None,
            nav.bookmarks_manager == bookmarks_manager,
            nav.split_pane_view is None,
            nav.show_preview_panel == false,
            nav.bookmark_selected_index is None,
            nav.preview_focused == false,
    {
        Navigator {
            current_dir,
            entries: Vec::new(),
            selected_index: 0,
            selected_items: Vec::new(),
            scroll_offset: 0,
            terminal_height,
            mode: NavigatorMode::Browse,
            is_root,
            pattern_input: String::new(),
            chmod_interface: None,
            chown_interface: None,
            status_message: None,
            search_mode: None,
            file_preview: None,
            bookmarks_manager,
            split_pane_view: None,
            show_preview_panel: false,
            bookmark_selected_index: None,
            preview_focused: false,
        }
    }

    /// The current directory.
    pub fn get_current_dir(&self) -> (r: &String)
        ensures
            r == &self.current_dir,
    {
        &self.current_dir
    }

    /// Replaces the listing with the one for `path` built from the probed
    /// entries, resetting highlight, marks and scroll.
    pub fn load_directory(&mut self, path: &str, children: &Vec<FileEntry>)
        ensures
            *final(self) == (Navigator {
                current_dir: final(self).current_dir,
                entries: final(self).entries,
                selected_index: 0usize,
                selected_items: final(self).selected_items,
                scroll_offset: 0usize,
                ..*old(self)
            }),
            final(self).current_dir@ == path@,
            is_listing_of(final(self).entries@, path@, children@),
            final(self).selected_items@.len() == 0,
            old(self).wf() ==> final(self).wf(),
    {
        self.entries = build_listing(path, children);
        self.selected_index = 0;
        self.selected_items = Vec::new();
        self.scroll_offset = 0;
        self.current_dir = String::from_str(path);
    }

    /// Replaces the listing with the synthetic error listing for a
    /// directory that could not be read.
    pub fn load_directory_error(&mut self, path: &str, message: String)
        ensures
            *final(self) == (Navigator {
                current_dir: final(self).current_dir,
                entries: final(self).entries,
                selected_index: 0usize,
                selected_items: final(self).selected_items,
                scroll_offset: 0usize,
                ..*old(self)
            }),
            final(self).current_dir@ == path@,
            final(self).entries@.len() == parent_count(path@) + 1,
            final(self).entries@.last().name@ == message@,
            !final(self).entries@.last().is_accessible,
            final(self).selected_items@.len() == 0,
            old(self).wf() ==> final(self).wf(),
    {
        self.entries = error_listing(path, message);
        self.selected_index = 0;
        self.selected_items = Vec::new();
        self.scroll_offset = 0;
        self.current_dir = String::from_str(path);
    }

    /// Brings the highlight back into the visible window.
    fn adjust_scroll(&mut self)
        ensures
            *final(self) == (Navigator {
                scroll_offset: scrolled_offset(
                    old(self).selected_index as int,
                    old(self).scroll_offset as int,
                    old(self).terminal_height as int,
                ) as usize,
                ..*old(self)
            }),
    {
        let visible: usize = if self.terminal_height >= 6 {
            (self.terminal_height - 5) as usize
        } else {
            1
        };
        if self.selected_index < self.scroll_offset {
            self.scroll_offset = self.selected_index;
        } else if self.selected_index - self.scroll_offset >= visible {
            self.scroll_offset = self.selected_index - (visible - 1);
        }
    }

    /// Moves the highlight one entry up, stopping at the top, and keeps it
    /// visible.
    pub fn move_selection_up(&mut self)
        ensures
            *final(self) == moved_up(*old(self)),
    {
        if self.selected_index > 0 {
            self.selected_index = self.selected_index - 1;
        }
        self.adjust_scroll();
    }

    /// Moves the highlight one entry down, stopping at the last entry, and
    /// keeps it visible.
    pub fn move_selection_down(&mut self)
        ensures
            *final(self) == moved_down(*old(self)),
    {
        if self.entries.len() > 0 && self.selected_index < self.entries.len() - 1 {
            self.selected_index = self.selected_index + 1;
        }
        self.adjust_scroll();
    }

    /// The directory to descend into: the highlighted entry's path when it
    /// is an accessible directory.
    pub fn navigate_to_selected(&self) -> (r: Option<String>)
        ensures
            (match r {
                Some(p) => self.selected_index < self.entries@.len()
                    && self.entries@[self.selected_index as int].is_dir
                    && self.entries@[self.selected_index as int].is_accessible
                    && p@ == self.entries@[self.selected_index as int].path@,
                None => self.selected_index >= self.entries@.len()
                    || !self.entries@[self.selected_index as int].is_dir
                    || !self.entries@[self.selected_index as int].is_accessible,
            }),
    {
        if self.selected_index < self.entries.len() {
            let e = &self.entries[self.selected_index];
            if e.is_dir && e.is_accessible {
                Some(e.path.clone())
            } else {
                None
            }
        } else {
            None
        }
    }

    /// The parent directory to climb to, when there is one.
    pub fn navigate_up(&self) -> (r: Option<String>)
        ensures
            (match r {
                Some(p) => parent_dir(self.current_dir@) == Some(p@),
                None => parent_dir(self.current_dir@) is None,
            }),
    {
        parent_of(self.current_dir.as_str())
    }

    /// Marks or unmarks the highlighted entry; the synthetic parent entry
    /// is never markable.
    pub fn toggle_selection(&mut self)
        requires
            old(self).wf(),
        ensures
            final(self).wf(),
            *final(self) == (Navigator { selected_items: final(self).selected_items, ..*old(self) }),
            ({
                let idx = old(self).selected_index;
                if idx < old(self).entries@.len() && old(self).entries@[idx as int].name@ != seq!['.', '.'] {
                    toggled_marks(old(self).selected_items@, final(self).selected_items@, idx)
                } else {
                    final(self).selected_items == old(self).selected_items
                }
            }),
    {
        proof {
            reveal_strlit("..");
            assert(".."@ =~= seq!['.', '.']);
        }
        if self.selected_index < self.entries.len() {
            let idx = self.selected_index;
            if !str_eq(self.entries[idx].name.as_str(), "..") {
                toggle_index(&mut self.selected_items, idx);
                proof {
                    assert forall|i: int| 0 <= i < self.selected_items@.len()
                        implies (#[trigger] self.selected_items@[i]) < self.entries@.len() by {
                        let v = self.selected_items@[i];
                        assert(self.selected_items@.contains(v));
                        if v != idx {
                            assert(old(self).selected_items@.contains(v));
                            let w = choose|w: int| 0 <= w < old(self).selected_items@.len()
                                && old(self).selected_items@[w] == v;
                        }
                    }
                }
            }
        }
    }

    /// The targets of a bulk operation: the marked entries' paths, else
    /// the highlighted entry's path; the parent entry is never a target.
    #[verifier::loop_isolation(false)]
    pub fn get_selected_paths(&self) -> (r: Vec<String>)
        ensures
            r@.map_values(|p: String| p@) == selected_paths_spec(
                self.entries@,
                self.selected_items@,
                self.selected_index as int,
            ),
    {
        proof {
            reveal_strlit("..");
            assert(".."@ =~= seq!['.', '.']);
        }
        let mut out: Vec<String> = Vec::new();
        if self.selected_items.len() == 0 {
            if self.selected_index < self.entries.len() {
                let e = &self.entries[self.selected_index];
                if !str_eq(e.name.as_str(), "..") {
                    out.push(e.path.clone());
                }
            }
            proof {
                assert(out@.map_values(|p: String| p@) =~= selected_paths_spec(
                    self.entries@, self.selected_items@, self.selected_index as int));
            }
            out
        } else {
            let mut i: usize = 0;
            while i < self.selected_items.len()
                invariant
                    0 <= i <= self.selected_items@.len(),
                    self.selected_items@.len() > 0,
                    out@.map_values(|p: String| p@)
                        == crate::split_pane::marked_paths(self.entries@, self.selected_items@.take(i as int)),
                decreases self.selected_items@.len() - i,
            {
                let idx = self.selected_items[i];
                if idx < self.entries.len() {
                    let e = &self.entries[idx];
                    if !str_eq(e.name.as_str(), "..") {
                        out.push(e.path.clone());
                    }
                }
                proof {
                    assert(self.selected_items@.take(i + 1).drop_last() =~= self.selected_items@.take(i as int));
                    assert(self.selected_items@.take(i + 1).last() == self.selected_items@[i as int]);
                    assert(out@.map_values(|p: String| p@)
                        =~= crate::split_pane::marked_paths(self.entries@, self.selected_items@.take(i + 1)));
                }
                i = i + 1;
            }
            proof {
                assert(self.selected_items@.take(self.selected_items@.len() as int) =~= self.selected_items@);
            }
            out
        }
    }

    /// Replaces the marks with every non-parent entry whose name matches
    /// the typed pattern, reports the count in the status line, and clears
    /// the pattern; an empty pattern changes nothing.
    #[verifier::loop_isolation(false)]
    pub fn select_by_pattern(&mut self)
        requires
            old(self).wf(),
        ensures
            final(self).wf(),
            pattern_selected(*old(self), *final(self)),
    {
        proof {
            reveal_strlit("..");
            assert(".."@ =~= seq!['.', '.']);
        }
        if self.pattern_input.as_str().unicode_len() == 0 {
            return;
        }

        let mut marks: Vec<usize> = Vec::new();
        let mut i: usize = 0;
        while i < self.entries.len()
            invariant
                0 <= i <= self.entries@.len(),
                marks@ == pattern_match_indices(self.pattern_input@, self.entries@.take(i as int)),
                forall|k: int| 0 <= k < marks@.len() ==> (#[trigger] marks@[k]) < i,
                forall|a: int, b: int| 0 <= a < b < marks@.len() ==> marks@[a] < marks@[b],
            decreases self.entries@.len() - i,
        {
            let e = &self.entries[i];
            if !str_eq(e.name.as_str(), "..") && match_pattern(self.pattern_input.as_str(), e.name.as_str()) {
                marks.push(i);
            }
            proof {
                assert(self.entries@.take(i + 1).drop_last() =~= self.entries@.take(i as int));
                assert(self.entries@.take(i + 1).last() == self.entries@[i as int]);
                assert(self.entries@.take(i + 1).len() == i + 1);
                assert(marks@ =~= pattern_match_indices(self.pattern_input@, self.entries@.take(i + 1)));
            }
            i = i + 1;
        }
        proof {
            assert(self.entries@.take(self.entries@.len() as int) =~= self.entries@);
        }

        let count = marks.len();
        let mut msg = String::from_str("Selected ");
        let count_str = u64_to_string(count as u64);
        msg.append(count_str.as_str());
        msg.append(" items matching '");
        msg.append(self.pattern_input.as_str());
        msg.append("'");
        proof {
            assert(msg@ =~= selection_message(old(self).pattern_input@, marks@.len() as int));
        }

        self.selected_items = marks;
        self.status_message = Some(msg);
        self.pattern_input = String::new();
    }

    /// The refusal-or-targets step of opening the permission editor:
    /// refused without privilege or without targets, each with its status
    /// message; otherwise the targets the embedder should probe before
    /// installing the session.
    pub fn open_chmod_interface(&mut self) -> (r: Option<Vec<String>>)
        ensures
            open_editor_rel(*old(self), *final(self), r, true),
    {
        proof {
            reveal_strlit("\u{26a0}\u{fe0f}  Chmod interface requires root privileges");
            reveal_strlit("No items selected for chmod");
        }
        if !self.is_root {
            self.status_message = Some(String::from_str("\u{26a0}\u{fe0f}  Chmod interface requires root privileges"));
            return None;
        }
        let targets = self.get_selected_paths();
        if targets.len() == 0 {
            self.status_message = Some(String::from_str("No items selected for chmod"));
            return None;
        }
        Some(targets)
    }

    /// The refusal-or-targets step of opening the ownership editor: a
    /// failed privilege check refuses with a status message and constructs
    /// no session and no warnings; no targets likewise refuses.
    pub fn open_chown_interface(&mut self) -> (r: Option<Vec<String>>)
        ensures
            open_editor_rel(*old(self), *final(self), r, false),
    {
        proof {
            reveal_strlit("\u{26a0}\u{fe0f}  Chown interface requires root privileges");
            reveal_strlit("No items selected for chown");
        }
        if !self.is_root {
            self.status_message = Some(String::from_str("\u{26a0}\u{fe0f}  Chown interface requires root privileges"));
            return None;
        }
        let targets = self.get_selected_paths();
        if targets.len() == 0 {
            self.status_message = Some(String::from_str("No items selected for chown"));
            return None;
        }
        Some(targets)
    }

    /// Installs a freshly built permission editor and gives it focus.
    pub fn install_chmod_interface(&mut self, session: ChmodInterface)
        requires
            old(self).wf(),
            session@.wf(),
            old(self).mode != NavigatorMode::ChownInterface,
            old(self).mode != NavigatorMode::Search,
            old(self).mode != NavigatorMode::SplitPane,
        ensures
            final(self).wf(),
            *final(self) == (Navigator {
                mode: NavigatorMode::ChmodInterface,
                chmod_interface: Some(session),
                ..*old(self)
            }),
    {
        self.chmod_interface = Some(session);
        self.mode = NavigatorMode::ChmodInterface;
    }

    /// Installs a freshly built ownership editor and gives it focus.
    pub fn install_chown_interface(&mut self, session: ChownInterface)
        requires
            old(self).wf(),
            old(self).mode != NavigatorMode::ChmodInterface,
            old(self).mode != NavigatorMode::Search,
            old(self).mode != NavigatorMode::SplitPane,
        ensures
            final(self).wf(),
            *final(self) == (Navigator {
                mode: NavigatorMode::ChownInterface,
                chown_interface: Some(session),
                ..*old(self)
            }),
    {
        self.chown_interface = Some(session);
        self.mode = NavigatorMode::ChownInterface;
    }

    /// Opens a fresh search session and gives it focus.
    pub fn enter_search_mode(&mut self)
        requires
            old(self).wf(),
            old(self).mode != NavigatorMode::ChmodInterface,
            old(self).mode != NavigatorMode::ChownInterface,
            old(self).mode != NavigatorMode::SplitPane,
        ensures
            final(self).wf(),
            *final(self) == (Navigator {
                mode: NavigatorMode::Search,
                search_mode: final(self).search_mode,
                ..*old(self)
            }),
            (match final(self).search_mode {
                Some(s) => fresh_search(s),
                None => false,
            }),
    {
        self.search_mode = Some(SearchMode::new());
        self.mode = NavigatorMode::Search;
    }

    /// Installs a freshly built dual-pane view and gives it focus.
    pub fn install_split_pane(&mut self, view: SplitPaneView)
        requires
            old(self).wf(),
            view.left_pane.wf(),
            view.right_pane.wf(),
            old(self).mode != NavigatorMode::ChmodInterface,
            old(self).mode != NavigatorMode::ChownInterface,
            old(self).mode != NavigatorMode::Search,
        ensures
            final(self).wf(),
            *final(self) == (Navigator {
                mode: NavigatorMode::SplitPane,
                split_pane_view: Some(view),
                ..*old(self)
            }),
    {
        self.split_pane_view = Some(view);
        self.mode = NavigatorMode::SplitPane;
    }

    /// The directory the second pane of a fresh dual-pane view starts in:
    /// the parent when there is one, else the current directory again.
    pub fn second_pane_dir(&self) -> (r: String)
        ensures
            r@ == (match parent_dir(self.current_dir@) {
                Some(p) => p,
                None => self.current_dir@,
            }),
    {
        match parent_of(self.current_dir.as_str()) {
            Some(p) => p,
            None => self.current_dir.clone(),
        }
    }

    /// Stores the preview the embedder built for the highlighted entry.
    pub fn install_preview(&mut self, preview: FilePreview)
        requires
            old(self).wf(),
        ensures
            final(self).wf(),
            *final(self) == (Navigator { file_preview: Some(preview), ..*old(self) }),
    {
        self.file_preview = Some(preview);
    }

    /// Flips the preview panel: turning it on asks for a preview of the
    /// highlighted entry, turning it off drops the loaded preview.
    pub fn toggle_preview_panel(&mut self) -> (r: Option<String>)
        requires
            old(self).wf(),
        ensures
            final(self).wf(),
            toggled_preview_panel(*old(self), *final(self), r),
    {
        if !self.show_preview_panel {
            self.show_preview_panel = true;
            if self.selected_index < self.entries.len() {
                Some(self.entries[self.selected_index].path.clone())
            } else {
                None
            }
        } else {
            self.show_preview_panel = false;
            self.file_preview = None;
            None
        }
    }

    /// Opens the bookmark view for a quick jump.
    pub fn show_goto_dialog(&mut self)
        requires
            old(self).wf(),
            old(self).mode == NavigatorMode::Browse,
        ensures
            final(self).wf(),
            *final(self) == (Navigator { mode: NavigatorMode::Bookmarks, ..*old(self) }),
    {
        self.mode = NavigatorMode::Bookmarks;
    }

    /// Moves the highlight to the listed entry the current search result
    /// points at, when the listing holds its path.
    pub fn jump_to_search_result(&mut self)
        requires
            old(self).wf(),
        ensures
            final(self).wf(),
            jumped_to_result(*old(self), *final(self)),
    {
        let path: Option<String> = match &self.search_mode {
            Some(search) => {
                match search.get_current_result() {
                    Some(result) => Some(result.entry.path.clone()),
                    None => None,
                }
            },
            None => None,
        };
        match path {
            Some(p) => {
                let mut i: usize = 0;
                let mut found: bool = false;
                while i < self.entries.len() && !found
                    invariant
                        self == old(self),
                        0 <= i <= self.entries@.len(),
                        !found ==> forall|m: int| 0 <= m < i
                            ==> (#[trigger] self.entries@[m]).path@ != p@,
                        found ==> i < self.entries@.len() && self.entries@[i as int].path@ == p@
                            && (forall|m: int| 0 <= m < i
                                ==> (#[trigger] self.entries@[m]).path@ != p@),
                    decreases self.entries@.len() - i + (if found { 0int } else { 1int }),
                {
                    if str_eq(self.entries[i].path.as_str(), p.as_str()) {
                        found = true;
                    } else {
                        i = i + 1;
                    }
                }
                if found {
                    self.selected_index = i;
                    self.adjust_scroll();
                }
            },
            None => {},
        }
    }
}

/// The scroll offset that keeps the highlight inside a window of
/// `max(terminal height - 5, 1)` rows.
pub open spec fn scrolled_offset(sel: int, scroll: int, th: int) -> int {
    let visible = if th >= 6 { th - 5 } else { 1int };
    if sel < scroll {
        sel
    } else if sel >= scroll + visible {
        sel - (visible - 1)
    } else {
        scroll
    }
}

/// The navigator after the highlight moved one entry up.
pub open spec fn moved_up(pre: Navigator) -> Navigator {
    let sel = if pre.selected_index > 0 { pre.selected_index - 1 } else { 0int };
    Navigator {
        selected_index: sel as usize,
        scroll_offset: scrolled_offset(sel, pre.scroll_offset as int, pre.terminal_height as int) as usize,
        ..pre
    }
}

/// The navigator after the highlight moved one entry down.
pub open spec fn moved_down(pre: Navigator) -> Navigator {
    let sel = if pre.selected_index + 1 < pre.entries@.len() {
        pre.selected_index + 1
    } else {
        pre.selected_index as int
    };
    Navigator {
        selected_index: sel as usize,
        scroll_offset: scrolled_offset(sel, pre.scroll_offset as int, pre.terminal_height as int) as usize,
        ..pre
    }
}

/// The indices of the non-parent entries whose names match the pattern,
/// ascending.
pub open spec fn pattern_match_indices(p: Seq<char>, entries: Seq<FileEntry>) -> Seq<usize>
    decreases entries.len(),
{
    if entries.len() == 0 {
        Seq::<usize>::empty()
    } else {
        let pre = pattern_match_indices(p, entries.drop_last());
        let e = entries.last();
        if e.name@ != seq!['.', '.'] && match_pattern_spec(p, e.name@) {
            pre.push((entries.len() - 1) as usize)
        } else {
            pre
        }
    }
}

/// The status line reporting a pattern selection.
pub open spec fn selection_message(p: Seq<char>, count: int) -> Seq<char> {
    "Selected "@ + dec_digits(count) + " items matching '"@ + p + "'"@
}

/// What `select_by_pattern` does: with an empty pattern nothing; otherwise
/// the marks become the matching indices, the status line reports the
/// count, and the pattern is cleared.
pub open spec fn pattern_selected(pre: Navigator, post: Navigator) -> bool {
    if pre.pattern_input@.len() == 0 {
        post == pre
    } else {
        &&& post == (Navigator {
            selected_items: post.selected_items,
            status_message: post.status_message,
            pattern_input: post.pattern_input,
            ..pre
        })
        &&& post.selected_items@ == pattern_match_indices(pre.pattern_input@, pre.entries@)
        &&& (match post.status_message {
            Some(m) => m@ == selection_message(pre.pattern_input@, post.selected_items@.len() as int),
            None => false,
        })
        &&& post.pattern_input@.len() == 0
    }
}

/// What the opening step of either editor does: without privilege, or
/// without targets, it refuses with a status message, constructs nothing
/// and touches nothing else; otherwise it answers the target paths and
/// changes nothing.
pub open spec fn open_editor_rel(pre: Navigator, post: Navigator, r: Option<Vec<String>>, chmod: bool) -> bool {
    let targets = selected_paths_spec(pre.entries@, pre.selected_items@, pre.selected_index as int);
    if !pre.is_root {
        &&& r is None
        &&& post == (Navigator { status_message: post.status_message, ..pre })
        &&& (match post.status_message {
            Some(m) => m@ == (if chmod {
                "\u{26a0}\u{fe0f}  Chmod interface requires root privileges"@
            } else {
                "\u{26a0}\u{fe0f}  Chown interface requires root privileges"@
            }),
            None => false,
        })
    } else if targets.len() == 0 {
        &&& r is None
        &&& post == (Navigator { status_message: post.status_message, ..pre })
        &&& (match post.status_message {
            Some(m) => m@ == (if chmod {
                "No items selected for chmod"@
            } else {
                "No items selected for chown"@
            }),
            None => false,
        })
    } else {
        &&& post == pre
        &&& (match r {
            Some(t) => t@.map_values(|p: String| p@) == targets,
            None => false,
        })
    }
}

/// A search session as it is first opened.
pub open spec fn fresh_search(s: SearchMode) -> bool {
    &&& s.query@.len() == 0
    &&& s.use_regex == false
    &&& s.case_sensitive == false
    &&& s.search_in_contents == false
    &&& s.results@.len() == 0
    &&& s.current_result_index == 0
}

/// What flipping the preview panel does: turning it on asks for the
/// highlighted entry's preview; turning it off drops the loaded preview.
pub open spec fn toggled_preview_panel(pre: Navigator, post: Navigator, r: Option<String>) -> bool {
    if !pre.show_preview_panel {
        &&& post == (Navigator { show_preview_panel: true, ..pre })
        &&& (match r {
            Some(p) => pre.selected_index < pre.entries@.len()
                && p@ == pre.entries@[pre.selected_index as int].path@,
            None => pre.selected_index >= pre.entries@.len(),
        })
    } else {
        &&& post == (Navigator { show_preview_panel: false, file_preview: None::<FilePreview>, ..pre })
        &&& r is None
    }
}

/// What jumping to the current search result does: when a result is under
/// the cursor and its path stands in the listing, the highlight moves to
/// its first occurrence and the window follows; otherwise nothing moves.
pub open spec fn jumped_to_result(pre: Navigator, post: Navigator) -> bool {
    match pre.search_mode {
        Some(s) => if s.current_result_index < s.results@.len() {
            let p = s.results@[s.current_result_index as int].entry.path@;
            if exists|ix: int| 0 <= ix < pre.entries@.len() && (#[trigger] pre.entries@[ix]).path@ == p {
                &&& post == (Navigator {
                    selected_index: post.selected_index,
                    scroll_offset: post.scroll_offset,
                    ..pre
                })
                &&& post.selected_index < pre.entries@.len()
                &&& pre.entries@[post.selected_index as int].path@ == p
                &&& (forall|m: int| 0 <= m < post.selected_index
                    ==> (#[trigger] pre.entries@[m]).path@ != p)
                &&& post.scroll_offset == scrolled_offset(
                    post.selected_index as int,
                    pre.scroll_offset as int,
                    pre.terminal_height as int,
                )
            } else {
                post == pre
            }
        } else {
            post == pre
        },
        None => post == pre,
    }
}

/// The navigator with its status line cleared, as every key press first
/// does.
pub open spec fn cleared(pre: Navigator) -> Navigator {
    Navigator { status_message: None::<String>, ..pre }
}

/// Scrolling the loaded preview, when one is loaded.
pub open spec fn preview_scroll_rel(pre: Navigator, post: Navigator, up: bool, lines: int) -> bool {
    match pre.file_preview {
        Some(p) => {
            let new_off = if up {
                if p.scroll_offset >= lines {
                    p.scroll_offset - lines
                } else {
                    0int
                }
            } else {
                if p.scroll_offset + lines <= max_scroll_of(&p.content) {
                    p.scroll_offset + lines
                } else {
                    max_scroll_of(&p.content)
                }
            };
            post == (Navigator {
                file_preview: Some(FilePreview { scroll_offset: new_off as usize, ..p }),
                ..pre
            })
        },
        None => post == pre,
    }
}

/// Browse-mode keys while the preview panel holds focus: scrolling, and
/// handing focus back.
pub open spec fn browse_preview_post(pre: Navigator, post: Navigator, key: Key) -> bool {
    match key {
        Key::Up => preview_scroll_rel(pre, post, true, 1),
        Key::Down => preview_scroll_rel(pre, post, false, 1),
        Key::PageUp => preview_scroll_rel(pre, post, true, 10),
        Key::PageDown => preview_scroll_rel(pre, post, false, 10),
        Key::Tab => post == (Navigator { preview_focused: false, ..pre }),
        Key::Esc => post == (Navigator { preview_focused: false, ..pre }),
        _ => post == pre,
    }
}

/// Descending into the highlighted entry: a load request when it is an
/// accessible directory, nothing otherwise.
pub open spec fn descend_rel(pre: Navigator, post: Navigator, r: NavAction) -> bool {
    &&& post == pre
    &&& (if pre.selected_index < pre.entries@.len()
        && pre.entries@[pre.selected_index as int].is_dir
        && pre.entries@[pre.selected_index as int].is_accessible {
        r matches NavAction::Load(p) && p@ == pre.entries@[pre.selected_index as int].path@
    } else {
        r is Stay
    })
}

/// Climbing to the parent directory, when there is one.
pub open spec fn ascend_rel(pre: Navigator, post: Navigator, r: NavAction) -> bool {
    &&& post == pre
    &&& (match parent_dir(pre.current_dir@) {
        Some(p) => r matches NavAction::Load(q) && q@ == p,
        None => r is Stay,
    })
}

/// Quitting, or first closing the preview panel when it is open.
pub open spec fn quit_rel(pre: Navigator, post: Navigator, r: NavAction) -> bool {
    if pre.show_preview_panel {
        &&& post == (Navigator {
            show_preview_panel: false,
            preview_focused: false,
            file_preview: None::<FilePreview>,
            ..pre
        })
        &&& r is Stay
    } else {
        post == pre && r is Quit
    }
}

/// The opening step of an editor wrapped into its action: a refusal stays,
/// otherwise the targets go out for probing.
pub open spec fn opened_editor_action(pre: Navigator, post: Navigator, r: NavAction, chmod: bool) -> bool {
    let targets = selected_paths_spec(pre.entries@, pre.selected_items@, pre.selected_index as int);
    if !pre.is_root || targets.len() == 0 {
        &&& (exists|m: Option<Vec<String>>| open_editor_rel(pre, post, m, chmod) && m is None)
        &&& r is Stay
    } else {
        &&& post == pre
        &&& (if chmod {
            r matches NavAction::OpenChmod { targets: t } && t@.map_values(|p: String| p@) == targets
        } else {
            r matches NavAction::OpenChown { targets: t } && t@.map_values(|p: String| p@) == targets
        })
    }
}

/// Browse-mode character keys.
pub open spec fn browse_char_post(pre: Navigator, post: Navigator, c: char, ctrl: bool, r: NavAction) -> bool {
    if ctrl && c == 'f' {
        &&& post == (Navigator {
            mode: NavigatorMode::Search,
            search_mode: post.search_mode,
            ..pre
        })
        &&& (match post.search_mode {
            Some(s) => fresh_search(s),
            None => false,
        })
        &&& r is Stay
    } else if ctrl && c == 'b' {
        post == (Navigator {
            mode: NavigatorMode::Bookmarks,
            bookmark_selected_index: Some(0usize),
            ..pre
        }) && r is Stay
    } else if ctrl && c == 'g' {
        post == (Navigator { mode: NavigatorMode::Bookmarks, ..pre }) && r is Stay
    } else if ctrl && c == 'p' {
        &&& (exists|m: Option<String>| toggled_preview_panel(pre, post, m)
            && (match m {
                Some(p) => r matches NavAction::LoadPreview(q) && q@ == p@,
                None => r is Stay,
            }))
    } else if ctrl && c == 'd' {
        post == pre && (r matches NavAction::SpawnShell(d) && d@ == pre.current_dir@)
    } else if c == 'S' {
        post == pre && (r matches NavAction::SpawnShell(d) && d@ == pre.current_dir@)
    } else if c == 's' && pre.is_root {
        post == (Navigator { mode: NavigatorMode::Select, ..pre }) && r is Stay
    } else if c == 'p' && pre.is_root && !ctrl {
        &&& post == (Navigator {
            mode: NavigatorMode::PatternSelect,
            pattern_input: post.pattern_input,
            ..pre
        })
        &&& post.pattern_input@.len() == 0
        &&& r is Stay
    } else if c == 'c' && pre.is_root {
        opened_editor_action(pre, post, r, true)
    } else if c == 'o' && pre.is_root {
        opened_editor_action(pre, post, r, false)
    } else if c == 'q' {
        quit_rel(pre, post, r)
    } else {
        post == pre && r is Stay
    }
}

/// Browse-mode keys while the listing has focus.
pub open spec fn browse_post(pre: Navigator, post: Navigator, key: Key, ctrl: bool, r: NavAction) -> bool {
    match key {
        Key::Tab => if pre.show_preview_panel {
            post == (Navigator { preview_focused: true, ..pre }) && r is Stay
        } else {
            post == pre && r is Stay
        },
        Key::Up => post == moved_up(pre) && r is Stay,
        Key::Down => post == moved_down(pre) && r is Stay,
        Key::Right => descend_rel(pre, post, r),
        Key::Enter => descend_rel(pre, post, r),
        Key::Left => ascend_rel(pre, post, r),
        Key::Backspace => ascend_rel(pre, post, r),
        Key::F(n) => if n == 2 {
            &&& post == pre
            &&& (r matches NavAction::EnterSplitPane { left, right }
                && left@ == pre.current_dir@
                && right@ == (match parent_dir(pre.current_dir@) {
                    Some(p) => p,
                    None => pre.current_dir@,
                }))
        } else {
            post == pre && r is Stay
        },
        Key::Char(c) => browse_char_post(pre, post, c, ctrl, r),
        Key::Esc => quit_rel(pre, post, r),
        _ => post == pre && r is Stay,
    }
}

/// Select-mode keys: moving, marking, confirming, opening the editors,
/// and leaving with the marks dropped.
pub open spec fn select_post(pre: Navigator, post: Navigator, key: Key, r: NavAction) -> bool {
    match key {
        Key::Up => post == moved_up(pre) && r is Stay,
        Key::Down => post == moved_down(pre) && r is Stay,
        Key::Enter => {
            &&& (if pre.selected_items@.len() > 0 {
                post == (Navigator { status_message: post.status_message, ..pre })
                    && (match post.status_message {
                        Some(m) => m@ == dec_digits(pre.selected_items@.len() as int)
                            + " items selected"@,
                        None => false,
                    })
            } else {
                post == pre
            })
            &&& r is Stay
        },
        Key::Char(c) => if c == ' ' {
            &&& post == (Navigator { selected_items: post.selected_items, ..pre })
            &&& ({
                let idx = pre.selected_index;
                if idx < pre.entries@.len() && pre.entries@[idx as int].name@ != seq!['.', '.'] {
                    toggled_marks(pre.selected_items@, post.selected_items@, idx)
                } else {
                    post.selected_items == pre.selected_items
                }
            })
            &&& r is Stay
        } else if c == 'c' {
            opened_editor_action(pre, post, r, true)
        } else if c == 'o' {
            opened_editor_action(pre, post, r, false)
        } else {
            post == pre && r is Stay
        },
        Key::Esc => {
            &&& post == (Navigator {
                mode: NavigatorMode::Browse,
                selected_items: post.selected_items,
                ..pre
            })
            &&& post.selected_items@.len() == 0
            &&& r is Stay
        },
        _ => post == pre && r is Stay,
    }
}

/// Pattern-input keys: typing, erasing, applying the pattern, cancelling.
pub open spec fn pattern_post(pre: Navigator, post: Navigator, key: Key, r: NavAction) -> bool {
    match key {
        Key::Enter => {
            &&& pattern_selected(pre, Navigator { mode: pre.mode, ..post })
            &&& post.mode == NavigatorMode::Select
            &&& r is Stay
        },
        Key::Esc => {
            &&& post == (Navigator {
                mode: NavigatorMode::Browse,
                pattern_input: post.pattern_input,
                ..pre
            })
            &&& post.pattern_input@.len() == 0
            &&& r is Stay
        },
        Key::Backspace => {
            &&& post == (Navigator { pattern_input: post.pattern_input, ..pre })
            &&& post.pattern_input@ == (if pre.pattern_input@.len() > 0 {
                pre.pattern_input@.drop_last()
            } else {
                pre.pattern_input@
            })
            &&& r is Stay
        },
        Key::Char(c) => {
            &&& post == (Navigator { pattern_input: post.pattern_input, ..pre })
            &&& post.pattern_input@ == pre.pattern_input@.push(c)
            &&& r is Stay
        },
        _ => post == pre && r is Stay,
    }
}

/// Where the highlight lands after a jump to a result at path `p`.
pub open spec fn jump_fields_ok(pre: Navigator, p: Seq<char>, post_sel: int, post_scroll: int) -> bool {
    if exists|ix: int| 0 <= ix < pre.entries@.len() && (#[trigger] pre.entries@[ix]).path@ == p {
        &&& 0 <= post_sel < pre.entries@.len()
        &&& pre.entries@[post_sel].path@ == p
        &&& (forall|m: int| 0 <= m < post_sel ==> (#[trigger] pre.entries@[m]).path@ != p)
        &&& post_scroll == scrolled_offset(post_sel, pre.scroll_offset as int, pre.terminal_height as int)
    } else {
        post_sel == pre.selected_index && post_scroll == pre.scroll_offset
    }
}

/// Search-mode keys: editing the query, running the search, walking and
/// jumping to results, flipping the toggles, leaving.
pub open spec fn search_post(pre: Navigator, s: SearchMode, post: Navigator, key: Key, ctrl: bool, r: NavAction) -> bool {
    match key {
        Key::Enter => {
            let res = search_results_spec(s.query@, s.use_regex, s.case_sensitive, pre.entries@);
            &&& post == (Navigator {
                search_mode: post.search_mode,
                selected_index: post.selected_index,
                scroll_offset: post.scroll_offset,
                ..pre
            })
            &&& (match post.search_mode {
                Some(s2) => s2 == (SearchMode {
                    results: s2.results,
                    current_result_index: 0usize,
                    ..s
                }) && s2.results@ == res,
                None => false,
            })
            &&& (if res.len() > 0 {
                jump_fields_ok(pre, res[0].entry.path@, post.selected_index as int, post.scroll_offset as int)
            } else {
                post.selected_index == pre.selected_index && post.scroll_offset == pre.scroll_offset
            })
            &&& (if s.search_in_contents {
                r is SearchContents
            } else {
                r is Stay
            })
        },
        Key::Backspace => {
            &&& post == (Navigator { search_mode: post.search_mode, ..pre })
            &&& (match post.search_mode {
                Some(s2) => s2 == (SearchMode { query: s2.query, ..s })
                    && s2.query@ == (if s.query@.len() > 0 {
                        s.query@.drop_last()
                    } else {
                        s.query@
                    }),
                None => false,
            })
            &&& r is Stay
        },
        Key::Char(c) => if ctrl && (c == 'n' || c == 'p') {
            let len = s.results@.len() as int;
            let new_idx = if len == 0 {
                s.current_result_index as int
            } else if c == 'n' {
                (s.current_result_index + 1) as int % len
            } else if s.current_result_index == 0 {
                len - 1
            } else {
                s.current_result_index - 1
            };
            &&& post == (Navigator {
                search_mode: post.search_mode,
                selected_index: post.selected_index,
                scroll_offset: post.scroll_offset,
                ..pre
            })
            &&& (match post.search_mode {
                Some(s2) => s2 == (SearchMode { current_result_index: new_idx as usize, ..s }),
                None => false,
            })
            &&& (if 0 <= new_idx < len {
                jump_fields_ok(pre, s.results@[new_idx].entry.path@, post.selected_index as int, post.scroll_offset as int)
            } else {
                post.selected_index == pre.selected_index && post.scroll_offset == pre.scroll_offset
            })
            &&& r is Stay
        } else if ctrl && (c == 'r' || c == 'c' || c == 'g') {
            &&& post == (Navigator { search_mode: post.search_mode, ..pre })
            &&& (match post.search_mode {
                Some(s2) => {
                    &&& s2 == (SearchMode {
                        use_regex: if c == 'r' { !s.use_regex } else { s.use_regex },
                        case_sensitive: if c == 'c' { !s.case_sensitive } else { s.case_sensitive },
                        search_in_contents: if c == 'g' { !s.search_in_contents } else { s.search_in_contents },
                        results: s2.results,
                        ..s
                    })
                    &&& s2.results@.len() == 0
                },
                None => false,
            })
            &&& r is Stay
        } else {
            &&& post == (Navigator { search_mode: post.search_mode, ..pre })
            &&& (match post.search_mode {
                Some(s2) => s2 == (SearchMode { query: s2.query, ..s })
                    && s2.query@ == s.query@.push(c),
                None => false,
            })
            &&& r is Stay
        },
        Key::Esc => post == (Navigator {
            mode: NavigatorMode::Browse,
            search_mode: None::<SearchMode>,
            ..pre
        }) && r is Stay,
        _ => post == pre && r is Stay,
    }
}

/// The pane that holds focus.
pub open spec fn active_pane_of(v: SplitPaneView) -> Pane {
    match v.focus {
        PaneFocus::Left => v.left_pane,
        PaneFocus::Right => v.right_pane,
    }
}

/// The view with its focused pane replaced.
pub open spec fn with_active_pane(v: SplitPaneView, p: Pane) -> SplitPaneView {
    match v.focus {
        PaneFocus::Left => SplitPaneView { left_pane: p, ..v },
        PaneFocus::Right => SplitPaneView { right_pane: p, ..v },
    }
}

/// Dual-pane keys: focus, movement, descending and climbing via load
/// requests, syncing, layout and split adjustments, marking, leaving.
pub open spec fn split_post(pre: Navigator, v: SplitPaneView, post: Navigator, key: Key, r: NavAction) -> bool {
    match key {
        Key::Tab => post == (Navigator {
            split_pane_view: Some(SplitPaneView {
                focus: match v.focus {
                    PaneFocus::Left => PaneFocus::Right,
                    PaneFocus::Right => PaneFocus::Left,
                },
                ..v
            }),
            ..pre
        }) && r is Stay,
        Key::Up => {
            let p = active_pane_of(v);
            let p2 = Pane {
                selected_index: if p.selected_index > 0 { (p.selected_index - 1) as usize } else { 0usize },
                ..p
            };
            post == (Navigator { split_pane_view: Some(with_active_pane(v, p2)), ..pre }) && r is Stay
        },
        Key::Down => {
            let p = active_pane_of(v);
            let p2 = Pane {
                selected_index: if p.selected_index + 1 < p.entries@.len() {
                    (p.selected_index + 1) as usize
                } else {
                    p.selected_index
                },
                ..p
            };
            post == (Navigator { split_pane_view: Some(with_active_pane(v, p2)), ..pre }) && r is Stay
        },
        Key::Enter | Key::Right => {
            let p = active_pane_of(v);
            &&& post == pre
            &&& (if p.selected_index < p.entries@.len()
                && p.entries@[p.selected_index as int].is_dir
                && p.entries@[p.selected_index as int].is_accessible {
                r matches NavAction::LoadPane(q) && q@ == p.entries@[p.selected_index as int].path@
            } else {
                r is Stay
            })
        },
        Key::Backspace | Key::Left => {
            let p = active_pane_of(v);
            &&& post == pre
            &&& (match parent_dir(p.current_dir@) {
                Some(q) => r matches NavAction::LoadPane(w) && w@ == q,
                None => r is Stay,
            })
        },
        Key::F(n) => if n == 5 {
            post == pre
                && (r matches NavAction::LoadOtherPane(d) && d@ == active_pane_of(v).current_dir@)
        } else if n == 6 {
            post == (Navigator {
                split_pane_view: Some(SplitPaneView { vertical_split: !v.vertical_split, ..v }),
                ..pre
            }) && r is Stay
        } else {
            post == pre && r is Stay
        },
        Key::Char(c) => if c == '+' || c == '-' {
            let delta: int = if c == '+' { 5int } else { -5int };
            let shifted = v.split_percent + delta;
            let clamped_pct: int = if shifted < 20 { 20int } else if shifted > 80 { 80int } else { shifted };
            post == (Navigator {
                split_pane_view: Some(SplitPaneView { split_percent: clamped_pct as u8, ..v }),
                ..pre
            }) && r is Stay
        } else if c == ' ' {
            let p = active_pane_of(v);
            &&& (match post.split_pane_view {
                Some(v2) => {
                    let p2 = active_pane_of(v2);
                    &&& post == (Navigator { split_pane_view: Some(with_active_pane(v, p2)), ..pre })
                    &&& p2 == (Pane { selected_items: p2.selected_items, ..p })
                    &&& (if p.selected_index < p.entries@.len()
                        && p.entries@[p.selected_index as int].name@ != seq!['.', '.'] {
                        toggled_marks(p.selected_items@, p2.selected_items@, p.selected_index)
                    } else {
                        p2.selected_items == p.selected_items
                    })
                },
                None => false,
            })
            &&& r is Stay
        } else if c == 'q' {
            post == (Navigator {
                mode: NavigatorMode::Browse,
                split_pane_view: None::<SplitPaneView>,
                ..pre
            }) && r is Stay
        } else {
            post == pre && r is Stay
        },
        Key::Esc => post == (Navigator {
            mode: NavigatorMode::Browse,
            split_pane_view: None::<SplitPaneView>,
            ..pre
        }) && r is Stay,
        _ => post == pre && r is Stay,
    }
}

/// Routing a key to the permission editor and closing it when it is done:
/// applying hands the targets and the combined mode to the embedder,
/// cancelling just asks for a reload; either way the marks are dropped.
pub open spec fn chmod_route(pre: Navigator, c: ChmodInterface, post: Navigator, key: Key, r: NavAction) -> bool {
    let stepped = chmod_step(c@, key);
    if stepped.1 {
        &&& post == (Navigator { chmod_interface: post.chmod_interface, ..pre })
        &&& (match post.chmod_interface {
            Some(c2) => c2@ == stepped.0,
            None => false,
        })
        &&& r is Stay
    } else {
        &&& post == (Navigator {
            chmod_interface: None::<ChmodInterface>,
            mode: NavigatorMode::Browse,
            selected_items: post.selected_items,
            ..pre
        })
        &&& post.selected_items@.len() == 0
        &&& (if stepped.0.apply_requested {
            r matches NavAction::ApplyPermissions { targets, mode_bits }
                && targets@ == stepped.0.selected_paths
                && mode_bits == 64 * stepped.0.digits[0] + 8 * stepped.0.digits[1] + stepped.0.digits[2]
        } else {
            r is Reload
        })
    }
}

/// Routing a key to the ownership editor and closing it when it is done:
/// applying with a resolvable selection hands the targets and the chosen
/// ownership to the embedder, anything else just asks for a reload.
pub open spec fn chown_route(pre: Navigator, c: ChownInterface, post: Navigator, key: Key, r: NavAction) -> bool {
    let stepped = chown_step(c@, key);
    if stepped.1 {
        &&& post == (Navigator { chown_interface: post.chown_interface, ..pre })
        &&& (match post.chown_interface {
            Some(c2) => c2@ == stepped.0,
            None => false,
        })
        &&& r is Stay
    } else {
        &&& post == (Navigator {
            chown_interface: None::<ChownInterface>,
            mode: NavigatorMode::Browse,
            selected_items: post.selected_items,
            ..pre
        })
        &&& post.selected_items@.len() == 0
        &&& (match resolved_spec(stepped.0) {
            Some(t) => if stepped.0.apply_requested {
                r matches NavAction::ApplyOwnership { targets, uid, gid, recursive }
                    && targets@ == stepped.0.selected_paths
                    && uid == t.0 && gid == t.1 && recursive == stepped.0.recursive
            } else {
                r is Reload
            },
            None => r is Reload,
        })
    }
}

/// One dispatch step: by the active mode, exactly one handler's relation.
pub open spec fn nav_input_rel(pre: Navigator, post: Navigator, key: Key, ctrl: bool, now: u64, r: NavAction) -> bool {
    match pre.mode {
        NavigatorMode::Browse => if pre.show_preview_panel && pre.preview_focused {
            browse_preview_post(pre, post, key) && r is Stay
        } else {
            browse_post(pre, post, key, ctrl, r)
        },
        NavigatorMode::Select => select_post(pre, post, key, r),
        NavigatorMode::PatternSelect => pattern_post(pre, post, key, r),
        NavigatorMode::Search => match pre.search_mode {
            Some(s) => search_post(pre, s, post, key, ctrl, r),
            None => post == pre && r is Stay,
        },
        NavigatorMode::SplitPane => match pre.split_pane_view {
            Some(v) => split_post(pre, v, post, key, r),
            None => post == pre && r is Stay,
        },
        NavigatorMode::Bookmarks => bookmarks_post(pre, post, key, ctrl, now, r),
        NavigatorMode::ChmodInterface => match pre.chmod_interface {
            Some(c) => chmod_route(pre, c, post, key, r),
            None => post == pre && r is Stay,
        },
        NavigatorMode::ChownInterface => match pre.chown_interface {
            Some(c) => chown_route(pre, c, post, key, r),
            None => post == pre && r is Stay,
        },
        _ => post == pre && r is Stay,
    }
}

/// The first bookmark using shortcut `c` stands at `i`.
pub open spec fn first_shortcut_at(bs: Seq<Bookmark>, c: char, i: int) -> bool {
    &&& 0 <= i < bs.len()
    &&& bs[i].shortcut == Some(c)
    &&& (forall|m: int| 0 <= m < i ==> (#[trigger] bs[m]).shortcut != Some(c))
}

/// Bookmark-view keys: walking the list, jumping, adding, deleting, and
/// leaving; every step first settles the cursor on the list.
pub open spec fn bookmarks_post(pre: Navigator, post: Navigator, key: Key, ctrl: bool, now: u64, r: NavAction) -> bool {
    let bs = pre.bookmarks_manager.bookmarks@;
    let cur: int = match pre.bookmark_selected_index {
        Some(i) => i as int,
        None => 0int,
    };
    let base = Navigator { bookmark_selected_index: Some(cur as usize), ..pre };
    match key {
        Key::Up => post == (Navigator {
            bookmark_selected_index: Some((if cur > 0 { cur - 1 } else { cur }) as usize),
            ..pre
        }) && r is Stay,
        Key::Down => post == (Navigator {
            bookmark_selected_index: Some((if cur + 1 < bs.len() { cur + 1 } else { cur }) as usize),
            ..pre
        }) && r is Stay,
        Key::Enter => if 0 <= cur < bs.len() {
            &&& post == (Navigator {
                mode: NavigatorMode::Browse,
                bookmark_selected_index: None::<usize>,
                bookmarks_manager: post.bookmarks_manager,
                ..pre
            })
            &&& (match post.bookmarks_manager.bookmarks@[cur] {
                b => post.bookmarks_manager.bookmarks@ == bs.update(cur, Bookmark {
                    last_accessed: Some(now),
                    access_count: bump(bs[cur].access_count),
                    ..bs[cur]
                }),
            })
            &&& (r matches NavAction::Load(p) && p@ == bs[cur].path@)
        } else {
            post == base && r is Stay
        },
        Key::Char(c) => if ctrl && alphanumeric(c) {
            if shortcut_taken(bs, c) {
                exists|i: int| {
                    &&& #[trigger] first_shortcut_at(bs, c, i)
                    &&& post == (Navigator {
                        mode: NavigatorMode::Browse,
                        bookmark_selected_index: None::<usize>,
                        bookmarks_manager: post.bookmarks_manager,
                        ..base
                    })
                    &&& post.bookmarks_manager.bookmarks@ == bs.update(i, Bookmark {
                        last_accessed: Some(now),
                        access_count: bump(bs[i].access_count),
                        ..bs[i]
                    })
                    &&& (r matches NavAction::Load(p) && p@ == bs[i].path@)
                }
            } else {
                post == base && r is Stay
            }
        } else if !ctrl && c == 'a' {
            added_bookmark_rel(pre, post, now, cur) && r is Stay
        } else if !ctrl && c == 'd' {
            (if 0 <= cur < bs.len() {
                &&& post == (Navigator {
                    bookmarks_manager: post.bookmarks_manager,
                    status_message: post.status_message,
                    bookmark_selected_index: Some((if cur >= bs.len() - 1 && cur > 0 {
                        cur - 1
                    } else {
                        cur
                    }) as usize),
                    ..pre
                })
                &&& post.bookmarks_manager.bookmarks@ == bs.remove(cur)
                &&& (match post.status_message {
                    Some(m) => m@ == "Bookmark deleted!"@,
                    None => false,
                })
            } else {
                &&& post == (Navigator {
                    status_message: post.status_message,
                    bookmark_selected_index: Some(cur as usize),
                    ..pre
                })
                &&& (match post.status_message {
                    Some(m) => m@ == "Failed to delete bookmark"@,
                    None => false,
                })
            }) && r is Stay
        } else if !ctrl && c == 'r' {
            &&& post == (Navigator {
                status_message: post.status_message,
                bookmark_selected_index: Some(cur as usize),
                ..pre
            })
            &&& (match post.status_message {
                Some(m) => m@ == "Rename not yet implemented"@,
                None => false,
            })
            &&& r is Stay
        } else {
            post == base && r is Stay
        },
        Key::Esc => post == (Navigator {
            mode: NavigatorMode::Browse,
            bookmark_selected_index: None::<usize>,
            ..pre
        }) && r is Stay,
        _ => post == base && r is Stay,
    }
}

/// Adding the current directory as a bookmark: named after its last path
/// segment, given the first free shortcut; an already bookmarked path is
/// refused, and the status line reports either way.
pub open spec fn added_bookmark_rel(pre: Navigator, post: Navigator, now: u64, cur: int) -> bool {
    let bs = pre.bookmarks_manager.bookmarks@;
    let nm = match last_segment_of(pre.current_dir@) {
        Some(s) => s,
        None => "Bookmark"@,
    };
    let avail = available_shortcuts_spec(bs, candidate_shortcuts());
    let sc = if avail.len() > 0 {
        Some(avail[0])
    } else {
        None::<char>
    };
    if !path_bookmarked(bs, pre.current_dir@) && (sc is Some ==> !shortcut_taken(bs, sc.unwrap())) {
        &&& post == (Navigator {
            bookmarks_manager: post.bookmarks_manager,
            status_message: post.status_message,
            bookmark_selected_index: Some(cur as usize),
            ..pre
        })
        &&& post.bookmarks_manager.bookmarks@.len() == bs.len() + 1
        &&& post.bookmarks_manager.bookmarks@.take(bs.len() as int) == bs
        &&& ({
            let nb = post.bookmarks_manager.bookmarks@.last();
            &&& nb.name@ == nm
            &&& nb.path == pre.current_dir
            &&& nb.shortcut == sc
            &&& nb.created_at == now
            &&& nb.last_accessed is None
            &&& nb.access_count == 0
        })
        &&& (match post.status_message {
            Some(m) => m@ == "Bookmark added!"@,
            None => false,
        })
    } else {
        &&& post == (Navigator {
            status_message: post.status_message,
            bookmark_selected_index: Some(cur as usize),
            ..pre
        })
        &&& (match post.status_message {
            Some(m) => m@ == "Failed to add bookmark"@,
            None => false,
        })
    }
}

/// Every shortcut the store reports available is indeed unused.
proof fn lemma_available_free(bs: Seq<Bookmark>, cands: Seq<char>, k: int)
    requires
        0 <= k < available_shortcuts_spec(bs, cands).len(),
    ensures
        !shortcut_taken(bs, available_shortcuts_spec(bs, cands)[k]),
    decreases cands.len(),
{
    if cands.len() > 0 {
        let pre = available_shortcuts_spec(bs, cands.drop_last());
        if !shortcut_taken(bs, cands.last()) {
            if k < pre.len() {
                lemma_available_free(bs, cands.drop_last(), k);
            }
        } else {
            lemma_available_free(bs, cands.drop_last(), k);
        }
    }
}

impl Navigator {
    /// Scrolls the loaded preview.
    fn scroll_preview(&mut self, up: bool, lines: usize)
        requires
            old(self).wf(),
        ensures
            final(self).wf(),
            preview_scroll_rel(*old(self), *final(self), up, lines as int),
    {
        match &mut self.file_preview {
            Some(p) => {
                if up {
                    p.scroll_up(lines);
                } else {
                    p.scroll_down(lines);
                }
            },
            None => {},
        }
    }

    /// Browse-mode input while the preview panel holds focus.
    fn handle_preview_input(&mut self, key: Key)
        requires
            old(self).wf(),
        ensures
            final(self).wf(),
            browse_preview_post(*old(self), *final(self), key),
    {
        match key {
            Key::Up => self.scroll_preview(true, 1),
            Key::Down => self.scroll_preview(false, 1),
            Key::PageUp => self.scroll_preview(true, 10),
            Key::PageDown => self.scroll_preview(false, 10),
            Key::Tab => {
                self.preview_focused = false;
            },
            Key::Esc => {
                self.preview_focused = false;
            },
            _ => {},
        }
    }

    /// Browse-mode input while the listing holds focus.
    fn handle_browse_input(&mut self, key: Key, ctrl: bool) -> (r: NavAction)
        requires
            old(self).wf(),
            old(self).mode == NavigatorMode::Browse,
        ensures
            final(self).wf(),
            browse_post(*old(self), *final(self), key, ctrl, r),
    {
        match key {
            Key::Tab => {
                if self.show_preview_panel {
                    self.preview_focused = true;
                }
                NavAction::Stay
            },
            Key::Up => {
                self.move_selection_up();
                NavAction::Stay
            },
            Key::Down => {
                self.move_selection_down();
                NavAction::Stay
            },
            Key::Right | Key::Enter => {
                match self.navigate_to_selected() {
                    Some(p) => NavAction::Load(p),
                    None => NavAction::Stay,
                }
            },
            Key::Left | Key::Backspace => {
                match self.navigate_up() {
                    Some(p) => NavAction::Load(p),
                    None => NavAction::Stay,
                }
            },
            Key::F(n) => {
                if n == 2 {
                    let left = self.current_dir.clone();
                    let right = self.second_pane_dir();
                    NavAction::EnterSplitPane { left, right }
                } else {
                    NavAction::Stay
                }
            },
            Key::Char(c) => {
                if ctrl && c == 'f' {
                    self.enter_search_mode();
                    NavAction::Stay
                } else if ctrl && c == 'b' {
                    self.mode = NavigatorMode::Bookmarks;
                    self.bookmark_selected_index = Some(0);
                    NavAction::Stay
                } else if ctrl && c == 'g' {
                    self.show_goto_dialog();
                    NavAction::Stay
                } else if ctrl && c == 'p' {
                    match self.toggle_preview_panel() {
                        Some(p) => NavAction::LoadPreview(p),
                        None => NavAction::Stay,
                    }
                } else if ctrl && c == 'd' {
                    NavAction::SpawnShell(self.current_dir.clone())
                } else if c == 'S' {
                    NavAction::SpawnShell(self.current_dir.clone())
                } else if c == 's' && self.is_root {
                    self.mode = NavigatorMode::Select;
                    NavAction::Stay
                } else if c == 'p' && self.is_root && !ctrl {
                    self.mode = NavigatorMode::PatternSelect;
                    self.pattern_input = String::new();
                    NavAction::Stay
                } else if c == 'c' && self.is_root {
                    match self.open_chmod_interface() {
                        Some(targets) => NavAction::OpenChmod { targets },
                        None => NavAction::Stay,
                    }
                } else if c == 'o' && self.is_root {
                    match self.open_chown_interface() {
                        Some(targets) => NavAction::OpenChown { targets },
                        None => NavAction::Stay,
                    }
                } else if c == 'q' {
                    self.quit_or_close_preview()
                } else {
                    NavAction::Stay
                }
            },
            Key::Esc => self.quit_or_close_preview(),
            _ => NavAction::Stay,
        }
    }

    /// Quits, unless the preview panel is open, which closes first.
    fn quit_or_close_preview(&mut self) -> (r: NavAction)
        requires
            old(self).wf(),
        ensures
            final(self).wf(),
            quit_rel(*old(self), *final(self), r),
    {
        if self.show_preview_panel {
            self.show_preview_panel = false;
            self.preview_focused = false;
            self.file_preview = None;
            NavAction::Stay
        } else {
            NavAction::Quit
        }
    }

    /// Select-mode input.
    fn handle_select_input(&mut self, key: Key) -> (r: NavAction)
        requires
            old(self).wf(),
            old(self).mode == NavigatorMode::Select,
        ensures
            final(self).wf(),
            select_post(*old(self), *final(self), key, r),
    {
        match key {
            Key::Up => {
                self.move_selection_up();
                NavAction::Stay
            },
            Key::Down => {
                self.move_selection_down();
                NavAction::Stay
            },
            Key::Enter => {
                if self.selected_items.len() > 0 {
                    let mut msg = u64_to_string(self.selected_items.len() as u64);
                    msg.append(" items selected");
                    proof {
                        assert(msg@ =~= dec_digits(old(self).selected_items@.len() as int)
                            + " items selected"@);
                    }
                    self.status_message = Some(msg);
                }
                NavAction::Stay
            },
            Key::Char(c) => {
                if c == ' ' {
                    self.toggle_selection();
                    NavAction::Stay
                } else if c == 'c' {
                    match self.open_chmod_interface() {
                        Some(targets) => NavAction::OpenChmod { targets },
                        None => NavAction::Stay,
                    }
                } else if c == 'o' {
                    match self.open_chown_interface() {
                        Some(targets) => NavAction::OpenChown { targets },
                        None => NavAction::Stay,
                    }
                } else {
                    NavAction::Stay
                }
            },
            Key::Esc => {
                self.mode = NavigatorMode::Browse;
                self.selected_items = Vec::new();
                NavAction::Stay
            },
            _ => NavAction::Stay,
        }
    }

    /// Pattern-input keys.
    fn handle_pattern_input(&mut self, key: Key) -> (r: NavAction)
        requires
            old(self).wf(),
            old(self).mode == NavigatorMode::PatternSelect,
        ensures
            final(self).wf(),
            pattern_post(*old(self), *final(self), key, r),
    {
        match key {
            Key::Enter => {
                self.select_by_pattern();
                self.mode = NavigatorMode::Select;
                NavAction::Stay
            },
            Key::Esc => {
                self.mode = NavigatorMode::Browse;
                self.pattern_input = String::new();
                NavAction::Stay
            },
            Key::Backspace => {
                pop_char(&mut self.pattern_input);
                NavAction::Stay
            },
            Key::Char(c) => {
                push_char(&mut self.pattern_input, c);
                NavAction::Stay
            },
            _ => NavAction::Stay,
        }
    }

    /// Search-mode input.
    fn handle_search_input(&mut self, key: Key, ctrl: bool) -> (r: NavAction)
        requires
            old(self).wf(),
            old(self).mode == NavigatorMode::Search,
        ensures
            final(self).wf(),
            (match old(self).search_mode {
                Some(s) => search_post(*old(self), s, *final(self), key, ctrl, r),
                None => *final(self) == *old(self) && r is Stay,
            }),
    {
        match key {
            Key::Enter => {
                let mut has_results: bool = false;
                let mut contents: bool = false;
                match &mut self.search_mode {
                    Some(search) => {
                        search.search(&self.entries);
                        has_results = search.results.len() > 0;
                        contents = search.search_in_contents;
                    },
                    None => {},
                }
                let ghost mid = *self;
                proof {
                    assert(mid == (Navigator { search_mode: mid.search_mode, ..*old(self) }));
                }
                if has_results {
                    self.jump_to_search_result();
                }
                proof {
                    if let Some(s) = old(self).search_mode {
                        let res = search_results_spec(s.query@, s.use_regex, s.case_sensitive, old(self).entries@);
                        if let Some(s2) = mid.search_mode {
                            assert(s2.results@ == res);
                            assert(self.search_mode == mid.search_mode);
                            if has_results {
                                assert(res.len() > 0);
                                assert(s2.current_result_index == 0);
                                assert(s2.results@[0] == res[0]);
                                assert(jumped_to_result(mid, *self));
                                let p = res[0].entry.path@;
                                if exists|ix: int| 0 <= ix < old(self).entries@.len()
                                    && (#[trigger] old(self).entries@[ix]).path@ == p {
                                    assert(mid.entries@ == old(self).entries@);
                                    assert(jump_fields_ok(*old(self), p, self.selected_index as int, self.scroll_offset as int));
                                } else {
                                    assert(*self == mid);
                                }
                            } else {
                                assert(*self == mid);
                            }
                        }
                    }
                }
                if contents {
                    NavAction::SearchContents
                } else {
                    NavAction::Stay
                }
            },
            Key::Backspace => {
                match &mut self.search_mode {
                    Some(search) => {
                        pop_char(&mut search.query);
                    },
                    None => {},
                }
                NavAction::Stay
            },
            Key::Char(c) => {
                if ctrl && (c == 'n' || c == 'p') {
                    match &mut self.search_mode {
                        Some(search) => {
                            if c == 'n' {
                                search.next_result();
                            } else {
                                search.previous_result();
                            }
                        },
                        None => {},
                    }
                    let ghost mid = *self;
                    proof {
                        assert(mid == (Navigator { search_mode: mid.search_mode, ..*old(self) }));
                    }
                    self.jump_to_search_result();
                    proof {
                        if let Some(s) = old(self).search_mode {
                            vstd::std_specs::vec::axiom_spec_len(&s.results);
                            let len = s.results@.len() as int;
                            let new_idx = if len == 0 {
                                s.current_result_index as int
                            } else if c == 'n' {
                                (s.current_result_index + 1) as int % len
                            } else if s.current_result_index == 0 {
                                len - 1
                            } else {
                                s.current_result_index - 1
                            };
                            if let Some(s2) = mid.search_mode {
                                assert(s2 == (SearchMode { current_result_index: new_idx as usize, ..s }));
                                assert(jumped_to_result(mid, *self));
                                if 0 <= new_idx < len {
                                    let p = s.results@[new_idx].entry.path@;
                                    assert(s2.current_result_index < s2.results@.len());
                                    assert(s2.results@[s2.current_result_index as int].entry.path@ == p);
                                    if exists|ix: int| 0 <= ix < old(self).entries@.len()
                                        && (#[trigger] old(self).entries@[ix]).path@ == p {
                                        let w = choose|ix: int| 0 <= ix < old(self).entries@.len()
                                            && (#[trigger] old(self).entries@[ix]).path@ == p;
                                        assert(mid.entries@[w].path@ == p);
                                        assert(exists|ix: int| 0 <= ix < mid.entries@.len()
                                            && (#[trigger] mid.entries@[ix]).path@ == p);
                                        assert(mid.entries@[self.selected_index as int].path@ == p);
                                        assert forall|m: int| 0 <= m < self.selected_index
                                            implies (#[trigger] old(self).entries@[m]).path@ != p by {
                                            assert(mid.entries@[m].path@ != p);
                                        }
                                        assert(jump_fields_ok(*old(self), p, self.selected_index as int, self.scroll_offset as int));
                                    } else {
                                        assert forall|ix: int| 0 <= ix < mid.entries@.len()
                                            implies (#[trigger] mid.entries@[ix]).path@ != p by {
                                            assert(old(self).entries@[ix].path@ != p);
                                        }
                                        assert(*self == mid);
                                    }
                                } else {
                                    assert(*self == mid);
                                }
                            }
                        }
                    }
                } else if ctrl && c == 'r' {
                    match &mut self.search_mode {
                        Some(search) => search.toggle_regex(),
                        None => {},
                    }
                } else if ctrl && c == 'c' {
                    match &mut self.search_mode {
                        Some(search) => search.toggle_case_sensitive(),
                        None => {},
                    }
                } else if ctrl && c == 'g' {
                    match &mut self.search_mode {
                        Some(search) => search.toggle_search_contents(),
                        None => {},
                    }
                } else {
                    match &mut self.search_mode {
                        Some(search) => {
                            push_char(&mut search.query, c);
                        },
                        None => {},
                    }
                }
                NavAction::Stay
            },
            Key::Esc => {
                self.mode = NavigatorMode::Browse;
                self.search_mode = None;
                NavAction::Stay
            },
            _ => NavAction::Stay,
        }
    }

    /// Dual-pane input.
    #[verifier::rlimit(30)]
    fn handle_split_pane_input(&mut self, key: Key) -> (r: NavAction)
        requires
            old(self).wf(),
            old(self).mode == NavigatorMode::SplitPane,
        ensures
            final(self).wf(),
            (match old(self).split_pane_view {
                Some(v) => split_post(*old(self), v, *final(self), key, r),
                None => *final(self) == *old(self) && r is Stay,
            }),
    {
        match key {
            Key::Tab => {
                match &mut self.split_pane_view {
                    Some(v) => v.toggle_focus(),
                    None => {},
                }
                NavAction::Stay
            },
            Key::Up => {
                match &mut self.split_pane_view {
                    Some(v) => {
                        match v.focus {
                            PaneFocus::Left => v.left_pane.move_up(),
                            PaneFocus::Right => v.right_pane.move_up(),
                        }
                    },
                    None => {},
                }
                NavAction::Stay
            },
            Key::Down => {
                match &mut self.split_pane_view {
                    Some(v) => {
                        match v.focus {
                            PaneFocus::Left => v.left_pane.move_down(),
                            PaneFocus::Right => v.right_pane.move_down(),
                        }
                    },
                    None => {},
                }
                NavAction::Stay
            },
            Key::Enter | Key::Right => {
                let target: Option<String> = match &self.split_pane_view {
                    Some(v) => v.get_active_pane().navigate_to_selected(),
                    None => None,
                };
                match target {
                    Some(p) => NavAction::LoadPane(p),
                    None => NavAction::Stay,
                }
            },
            Key::Backspace | Key::Left => {
                let target: Option<String> = match &self.split_pane_view {
                    Some(v) => v.get_active_pane().navigate_up(),
                    None => None,
                };
                match target {
                    Some(p) => NavAction::LoadPane(p),
                    None => NavAction::Stay,
                }
            },
            Key::F(n) => {
                if n == 5 {
                    let target: Option<String> = match &self.split_pane_view {
                        Some(v) => Some(v.sync_directories()),
                        None => None,
                    };
                    match target {
                        Some(d) => NavAction::LoadOtherPane(d),
                        None => NavAction::Stay,
                    }
                } else if n == 6 {
                    match &mut self.split_pane_view {
                        Some(v) => v.toggle_layout(),
                        None => {},
                    }
                    NavAction::Stay
                } else {
                    NavAction::Stay
                }
            },
            Key::Char(c) => {
                if c == '+' {
                    match &mut self.split_pane_view {
                        Some(v) => v.adjust_split(5),
                        None => {},
                    }
                    NavAction::Stay
                } else if c == '-' {
                    match &mut self.split_pane_view {
                        Some(v) => v.adjust_split(-5),
                        None => {},
                    }
                    NavAction::Stay
                } else if c == ' ' {
                    match &mut self.split_pane_view {
                        Some(v) => {
                            match v.focus {
                                PaneFocus::Left => v.left_pane.toggle_selection(),
                                PaneFocus::Right => v.right_pane.toggle_selection(),
                            }
                        },
                        None => {},
                    }
                    NavAction::Stay
                } else if c == 'q' {
                    self.mode = NavigatorMode::Browse;
                    self.split_pane_view = None;
                    NavAction::Stay
                } else {
                    NavAction::Stay
                }
            },
            Key::Esc => {
                self.mode = NavigatorMode::Browse;
                self.split_pane_view = None;
                NavAction::Stay
            },
            _ => NavAction::Stay,
        }
    }

    /// Bookmark-view input.
    fn handle_bookmarks_input(&mut self, key: Key, ctrl: bool, now: u64) -> (r: NavAction)
        requires
            old(self).wf(),
            old(self).mode == NavigatorMode::Bookmarks,
        ensures
            final(self).wf(),
            bookmarks_post(*old(self), *final(self), key, ctrl, now, r),
    {
        let count = self.bookmarks_manager.bookmarks.len();
        let cur: usize = match self.bookmark_selected_index {
            Some(i) => i,
            None => 0,
        };
        self.bookmark_selected_index = Some(cur);
        match key {
            Key::Up => {
                if cur > 0 {
                    self.bookmark_selected_index = Some(cur - 1);
                }
                NavAction::Stay
            },
            Key::Down => {
                if count > 0 && cur < count - 1 {
                    self.bookmark_selected_index = Some(cur + 1);
                }
                NavAction::Stay
            },
            Key::Enter => {
                match self.bookmarks_manager.get_bookmark_by_index(cur, now) {
                    Some(b) => {
                        self.mode = NavigatorMode::Browse;
                        self.bookmark_selected_index = None;
                        NavAction::Load(b.path)
                    },
                    None => NavAction::Stay,
                }
            },
            Key::Char(c) => {
                if ctrl && char_is_alphanumeric(c) {
                    match self.bookmarks_manager.get_bookmark_by_shortcut(c, now) {
                        Some(b) => {
                            self.mode = NavigatorMode::Browse;
                            self.bookmark_selected_index = None;
                            proof {
                                let bs = old(self).bookmarks_manager.bookmarks@;
                                let i = choose|i: int| {
                                    &&& 0 <= i < bs.len()
                                    &&& (#[trigger] bs[i]).shortcut == Some(c)
                                    &&& (forall|m: int| 0 <= m < i
                                        ==> (#[trigger] bs[m]).shortcut != Some(c))
                                    &&& b == (Bookmark {
                                        last_accessed: Some(now),
                                        access_count: bump(bs[i].access_count),
                                        ..bs[i]
                                    })
                                    &&& self.bookmarks_manager.bookmarks@ == bs.update(i, b)
                                };
                                assert(first_shortcut_at(bs, c, i));
                            }
                            NavAction::Load(b.path)
                        },
                        None => NavAction::Stay,
                    }
                } else if !ctrl && c == 'a' {
                    let name: String = match last_segment(self.current_dir.as_str()) {
                        Some(s) => s,
                        None => String::from_str("Bookmark"),
                    };
                    let avail = self.bookmarks_manager.get_available_shortcuts();
                    let shortcut: Option<char> = if avail.len() > 0 {
                        proof {
                            lemma_available_free(
                                self.bookmarks_manager.bookmarks@,
                                candidate_shortcuts(),
                                0,
                            );
                        }
                        Some(avail[0])
                    } else {
                        None
                    };
                    let ghost bs0 = self.bookmarks_manager.bookmarks@;
                    let outcome = self.bookmarks_manager.add_bookmark(
                        name,
                        self.current_dir.clone(),
                        shortcut,
                        now,
                    );
                    match outcome {
                        Ok(()) => {
                            proof {
                                assert(self.bookmarks_manager.bookmarks@.take(bs0.len() as int)
                                    =~= bs0);
                            }
                            self.status_message = Some(String::from_str("Bookmark added!"));
                        },
                        Err(_) => {
                            self.status_message = Some(String::from_str("Failed to add bookmark"));
                        },
                    }
                    NavAction::Stay
                } else if !ctrl && c == 'd' {
                    if cur < count {
                        let outcome = self.bookmarks_manager.remove_bookmark(cur);
                        self.status_message = Some(String::from_str("Bookmark deleted!"));
                        if cur + 1 >= count && cur > 0 {
                            self.bookmark_selected_index = Some(cur - 1);
                        }
                    } else {
                        self.status_message = Some(String::from_str("Failed to delete bookmark"));
                    }
                    NavAction::Stay
                } else if !ctrl && c == 'r' {
                    self.status_message = Some(String::from_str("Rename not yet implemented"));
                    NavAction::Stay
                } else {
                    NavAction::Stay
                }
            },
            Key::Esc => {
                self.mode = NavigatorMode::Browse;
                self.bookmark_selected_index = None;
                NavAction::Stay
            },
            _ => NavAction::Stay,
        }
    }

    /// Routes a key to the open permission editor; on completion the
    /// session is destroyed, the marks are dropped, browse mode returns,
    /// and the embedder is told to apply or just reload.
    fn route_chmod_input(&mut self, key: Key) -> (r: NavAction)
        requires
            old(self).wf(),
            old(self).mode == NavigatorMode::ChmodInterface,
        ensures
            final(self).wf(),
            (match old(self).chmod_interface {
                Some(c) => chmod_route(*old(self), c, *final(self), key, r),
                None => *final(self) == *old(self) && r is Stay,
            }),
    {
        let mut done: bool = false;
        let mut apply: bool = false;
        let mut bits: u32 = 0;
        let mut targets: Vec<String> = Vec::new();
        match &mut self.chmod_interface {
            Some(c) => {
                let cont = c.handle_input(key);
                if !cont {
                    done = true;
                    apply = c.apply_requested;
                    bits = c.combined_mode();
                    targets = clone_strings(&c.selected_paths);
                }
            },
            None => {},
        }
        if done {
            self.chmod_interface = None;
            self.mode = NavigatorMode::Browse;
            self.selected_items = Vec::new();
            if apply {
                NavAction::ApplyPermissions { targets, mode_bits: bits }
            } else {
                NavAction::Reload
            }
        } else {
            NavAction::Stay
        }
    }

    /// Routes a key to the open ownership editor; on completion the
    /// session is destroyed, the marks are dropped, browse mode returns,
    /// and the embedder is told to apply the resolved ownership or just
    /// reload.
    fn route_chown_input(&mut self, key: Key) -> (r: NavAction)
        requires
            old(self).wf(),
            old(self).mode == NavigatorMode::ChownInterface,
        ensures
            final(self).wf(),
            (match old(self).chown_interface {
                Some(c) => chown_route(*old(self), c, *final(self), key, r),
                None => *final(self) == *old(self) && r is Stay,
            }),
    {
        let mut done: bool = false;
        let mut apply: bool = false;
        let mut recursive: bool = false;
        let mut resolved: Option<(u32, u32)> = None;
        let mut targets: Vec<String> = Vec::new();
        match &mut self.chown_interface {
            Some(c) => {
                let cont = c.handle_input(key);
                if !cont {
                    done = true;
                    apply = c.apply_requested;
                    recursive = c.recursive;
                    resolved = c.resolved_target();
                    targets = clone_strings(&c.selected_paths);
                }
            },
            None => {},
        }
        if done {
            self.chown_interface = None;
            self.mode = NavigatorMode::Browse;
            self.selected_items = Vec::new();
            if apply {
                match resolved {
                    Some((uid, gid)) => NavAction::ApplyOwnership { targets, uid, gid, recursive },
                    None => NavAction::Reload,
                }
            } else {
                NavAction::Reload
            }
        } else {
            NavAction::Stay
        }
    }

    /// Routes one key press to exactly one handler, determined by the
    /// active mode, after clearing the status line; answers what outside
    /// work the embedder must do before the next frame. `now` stamps any
    /// bookmark access the key causes.
    pub fn handle_input(&mut self, key: Key, ctrl: bool, now: u64) -> (r: NavAction)
        requires
            old(self).wf(),
        ensures
            final(self).wf(),
            nav_input_rel(cleared(*old(self)), *final(self), key, ctrl, now, r),
    {
        self.status_message = None;
        let mode = self.mode;
        match mode {
            NavigatorMode::Browse => {
                if self.show_preview_panel && self.preview_focused {
                    self.handle_preview_input(key);
                    NavAction::Stay
                } else {
                    self.handle_browse_input(key, ctrl)
                }
            },
            NavigatorMode::Select => self.handle_select_input(key),
            NavigatorMode::PatternSelect => self.handle_pattern_input(key),
            NavigatorMode::Search => self.handle_search_input(key, ctrl),
            NavigatorMode::SplitPane => self.handle_split_pane_input(key),
            NavigatorMode::Bookmarks => self.handle_bookmarks_input(key, ctrl, now),
            NavigatorMode::ChmodInterface => self.route_chmod_input(key),
            NavigatorMode::ChownInterface => self.route_chown_input(key),
            _ => NavAction::Stay,
        }
    }
}

} // verus!
