//! Two independent directory browsers side by side: each pane owns a
//! listing, a highlighted index, a marked set and a scroll window; one pane
//! has focus, the split layout can flip, and the split ratio is clamped so
//! neither pane disappears. Reading directories is the embedder's job: a
//! pane is handed the probed entries and builds its listing itself.

use vstd::prelude::*;
use crate::listing::{build_listing, error_listing, is_listing_of, parent_dir, parent_of, parent_count};
use crate::models::file_entry::FileEntry;
use crate::text::str_eq;

verus! {

#[derive(Debug, Clone, Copy, PartialEq, Eq, Structural)]
pub enum PaneFocus {
    Left,
    Right,
}

/// One directory browser: listing, highlight, marks, scroll window.
#[derive(Debug)]
pub struct Pane {
    pub current_dir: String,
    pub entries: Vec<FileEntry>,
    /// The highlighted index, within the listing whenever it is non-empty.
    pub selected_index: usize,
    /// The marked indices, kept distinct and within the listing.
    pub selected_items: Vec<usize>,
    pub scroll_offset: usize,
}

impl Pane {
    /// Well-formedness: the highlight stays inside a non-empty listing and
    /// the marks are distinct in-bounds indices.
    pub open spec fn wf(self) -> bool {
        &&& (self.entries@.len() == 0 ==> self.selected_index == 0)
        &&& (self.entries@.len() > 0 ==> self.selected_index < self.entries@.len())
        &&& forall|i: int, j: int| 0 <= i < j < self.selected_items@.len()
            ==> self.selected_items@[i] != self.selected_items@[j]
        &&& forall|i: int| 0 <= i < self.selected_items@.len()
            ==> (#[trigger] self.selected_items@[i]) < self.entries@.len()
    }

    /// A pane showing `path`, built from the directory's probed entries.
    pub fn new(path: &str, children: &Vec<FileEntry>) -> (p: Self)
        ensures
            p.wf(),
            p.current_dir@ == path@,
            is_listing_of(p.entries@, path@, children@),
            p.selected_index == 0,
            p.selected_items@.len() == 0,
            p.scroll_offset == 0,
    {
        Pane {
            current_dir: String::from_str(path),
            entries: build_listing(path, children),
            selected_index: 0,
            selected_items: Vec::new(),
            scroll_offset: 0,
        }
    }

    /// Replaces the listing with the one for `path`, resetting highlight,
    /// marks and scroll.
    pub fn load_directory(&mut self, path: &str, children: &Vec<FileEntry>)
        ensures
            final(self).wf(),
            final(self).current_dir@ == path@,
            is_listing_of(final(self).entries@, path@, children@),
            final(self).selected_index == 0,
            final(self).selected_items@.len() == 0,
            final(self).scroll_offset == 0,
    {
        self.entries = build_listing(path, children);
        self.selected_index = 0;
        self.selected_items = Vec::new();
        self.scroll_offset = 0;
        self.current_dir = String::from_str(path);
    }

    /// Replaces the listing with the synthetic error listing for a
    /// directory that could not be read, resetting highlight, marks and
    /// scroll. The message becomes the single inaccessible entry's name.
    pub fn load_directory_error(&mut self, path: &str, message: String)
        ensures
            final(self).wf(),
            final(self).current_dir@ == path@,
            final(self).entries@.len() == parent_count(path@) + 1,
            final(self).entries@.last().name@ == message@,
            !final(self).entries@.last().is_accessible,
            final(self).selected_index == 0,
            final(self).selected_items@.len() == 0,
            final(self).scroll_offset == 0,
    {
        self.entries = error_listing(path, message);
        self.selected_index = 0;
        self.selected_items = Vec::new();
        self.scroll_offset = 0;
        self.current_dir = String::from_str(path);
    }

    /// Moves the highlight one entry up, stopping at the top.
    pub fn move_up(&mut self)
        ensures
            final(self).selected_index == (if old(self).selected_index > 0 {
                (old(self).selected_index - 1) as usize
            } else {
                0usize
            }),
            final(self).entries == old(self).entries,
            final(self).selected_items == old(self).selected_items,
            final(self).scroll_offset == old(self).scroll_offset,
            final(self).current_dir == old(self).current_dir,
    {
        if self.selected_index > 0 {
            self.selected_index = self.selected_index - 1;
        }
    }

    /// Moves the highlight one entry down, stopping at the last entry.
    pub fn move_down(&mut self)
        ensures
            final(self).selected_index == (if old(self).selected_index + 1 < old(self).entries@.len() {
                (old(self).selected_index + 1) as usize
            } else {
                old(self).selected_index
            }),
            final(self).entries == old(self).entries,
            final(self).selected_items == old(self).selected_items,
            final(self).scroll_offset == old(self).scroll_offset,
            final(self).current_dir == old(self).current_dir,
    {
        if self.entries.len() > 0 && self.selected_index < self.entries.len() - 1 {
            self.selected_index = self.selected_index + 1;
        }
    }

    /// The directory to descend into: the highlighted entry's path when it
    /// is an accessible directory, else nothing. The embedder probes it and
    /// hands the result back through `load_directory`.
    pub fn navigate_to_selected(&self) -> (r: Option<String>)
        ensures
            (match r {
                Some(p) => self.selected_index < self.entries@.len()
                    && self.entries@[self.selected_index as int].is_dir
                    && self.entries@[self.selected_index as int].is_accessible
                    && p@ == self.entries@[self.selected_index as int].path@,
                None => self.selected_index >= self.entries@.len()
                    || !self.entries@[self.selected_index as int].is_dir
                    || !self.entries@[self.selected_index as int].is_accessible,
            }),
    {
        if self.selected_index < self.entries.len() {
            let e = &self.entries[self.selected_index];
            if e.is_dir && e.is_accessible {
                Some(e.path.clone())
            } else {
                None
            }
        } else {
            None
        }
    }

    /// The parent directory to climb to, when the current one has a parent.
    pub fn navigate_up(&self) -> (r: Option<String>)
        ensures
            (match r {
                Some(p) => parent_dir(self.current_dir@) == Some(p@),
                None => parent_dir(self.current_dir@) is None,
            }),
    {
        parent_of(self.current_dir.as_str())
    }

    /// Marks or unmarks the highlighted entry; the synthetic parent entry
    /// is never markable. Afterwards the highlight is marked exactly when
    /// it was not before, and no other index changes membership.
    pub fn toggle_selection(&mut self)
        requires
            old(self).wf(),
        ensures
            final(self).wf(),
            final(self).entries == old(self).entries,
            final(self).selected_index == old(self).selected_index,
            final(self).scroll_offset == old(self).scroll_offset,
            final(self).current_dir == old(self).current_dir,
            ({
                let idx = old(self).selected_index;
                if idx < old(self).entries@.len() && old(self).entries@[idx as int].name@ != seq!['.', '.'] {
                    toggled_marks(old(self).selected_items@, final(self).selected_items@, idx)
                } else {
                    final(self).selected_items == old(self).selected_items
                }
            }),
    {
        proof {
            reveal_strlit("..");
            assert(".."@ =~= seq!['.', '.']);
        }
        if self.selected_index < self.entries.len() {
            let idx = self.selected_index;
            if !str_eq(self.entries[idx].name.as_str(), "..") {
                toggle_index(&mut self.selected_items, idx);
                proof {
                    assert forall|i: int| 0 <= i < self.selected_items@.len()
                        implies (#[trigger] self.selected_items@[i]) < self.entries@.len() by {
                        let v = self.selected_items@[i];
                        assert(self.selected_items@.contains(v));
                        if v != idx {
                            assert(old(self).selected_items@.contains(v));
                            let w = choose|w: int| 0 <= w < old(self).selected_items@.len()
                                && old(self).selected_items@[w] == v;
                        }
                    }
                }
            }
        }
    }

    /// The paths a bulk operation would act on: the marked entries when any
    /// are marked, else the highlighted entry; the synthetic parent entry
    /// is never a target.
    #[verifier::loop_isolation(false)]
    pub fn get_selected_paths(&self) -> (r: Vec<String>)
        ensures
            r@.map_values(|p: String| p@) == selected_paths_spec(
                self.entries@,
                self.selected_items@,
                self.selected_index as int,
            ),
    {
        proof {
            reveal_strlit("..");
            assert(".."@ =~= seq!['.', '.']);
        }
        let mut out: Vec<String> = Vec::new();
        if self.selected_items.len() == 0 {
            if self.selected_index < self.entries.len() {
                let e = &self.entries[self.selected_index];
                if !str_eq(e.name.as_str(), "..") {
                    out.push(e.path.clone());
                }
            }
            proof {
                assert(out@.map_values(|p: String| p@) =~= selected_paths_spec(
                    self.entries@, self.selected_items@, self.selected_index as int));
            }
            out
        } else {
            let mut i: usize = 0;
            while i < self.selected_items.len()
                invariant
                    0 <= i <= self.selected_items@.len(),
                    self.selected_items@.len() > 0,
                    out@.map_values(|p: String| p@) == marked_paths(self.entries@, self.selected_items@.take(i as int)),
                decreases self.selected_items@.len() - i,
            {
                let idx = self.selected_items[i];
                if idx < self.entries.len() {
                    let e = &self.entries[idx];
                    if !str_eq(e.name.as_str(), "..") {
                        out.push(e.path.clone());
                    }
                }
                proof {
                    assert(self.selected_items@.take(i + 1).drop_last() =~= self.selected_items@.take(i as int));
                    assert(self.selected_items@.take(i + 1).last() == self.selected_items@[i as int]);
                    assert(out@.map_values(|p: String| p@) =~= marked_paths(self.entries@, self.selected_items@.take(i + 1)));
                }
                i = i + 1;
            }
            proof {
                assert(self.selected_items@.take(self.selected_items@.len() as int) =~= self.selected_items@);
            }
            out
        }
    }

    /// Brings the highlight into the scroll window of the given height.
    /// Afterwards the highlighted index lies within the window.
    pub fn adjust_scroll_with_height(&mut self, visible_height: usize)
        requires
            visible_height >= 1,
        ensures
            final(self).scroll_offset == (if old(self).selected_index < old(self).scroll_offset {
                old(self).selected_index
            } else if old(self).selected_index >= old(self).scroll_offset + visible_height {
                (old(self).selected_index - (visible_height - 1)) as usize
            } else {
                old(self).scroll_offset
            }),
            final(self).scroll_offset <= final(self).selected_index
                < final(self).scroll_offset + visible_height,
            final(self).entries == old(self).entries,
            final(self).selected_index == old(self).selected_index,
            final(self).selected_items == old(self).selected_items,
            final(self).current_dir == old(self).current_dir,
    {
        if self.selected_index < self.scroll_offset {
            self.scroll_offset = self.selected_index;
        } else if self.selected_index - self.scroll_offset >= visible_height {
            self.scroll_offset = self.selected_index - (visible_height - 1);
        }
    }
}

/// A marked set: a list of distinct indices.
pub open spec fn marks_distinct(s: Seq<usize>) -> bool {
    forall|i: int, j: int| 0 <= i < j < s.len() ==> s[i] != s[j]
}

/// Membership after a toggle: the toggled index flips, every other index
/// keeps its membership.
pub open spec fn toggled_marks(pre: Seq<usize>, post: Seq<usize>, idx: usize) -> bool {
    forall|v: usize| post.contains(v) <==> (if v == idx {
        !pre.contains(v)
    } else {
        pre.contains(v)
    })
}

/// Flips whether `idx` belongs to a list of distinct marks.
pub fn toggle_index(items: &mut Vec<usize>, idx: usize)
    requires
        marks_distinct(old(items)@),
    ensures
        marks_distinct(final(items)@),
        toggled_marks(old(items)@, final(items)@, idx),
{
    let mut pos: usize = 0;
    let mut found: bool = false;
    while pos < items.len() && !found
        invariant
            items@ == old(items)@,
            0 <= pos <= items@.len(),
            !found ==> forall|m: int| 0 <= m < pos ==> items@[m] != idx,
            found ==> pos < items@.len() && items@[pos as int] == idx,
        decreases items@.len() - pos + (if found { 0int } else { 1int }),
    {
        if items[pos] == idx {
            found = true;
        } else {
            pos = pos + 1;
        }
    }
    if found {
        let ghost items0 = items@;
        items.remove(pos);
        proof {
            let items1 = items@;
            assert(items1 == items0.remove(pos as int));
            assert forall|v: usize| items1.contains(v) <==> (if v == idx {
                !items0.contains(v)
            } else {
                items0.contains(v)
            }) by {
                if items1.contains(v) {
                    let w = choose|w: int| 0 <= w < items1.len() && items1[w] == v;
                    if w < pos {
                        assert(items0[w] == v);
                    } else {
                        assert(items0[w + 1] == v);
                    }
                    if v == idx {
                        if w < pos {
                            assert(items0[w] == idx && items0[pos as int] == idx);
                            assert(false);
                        } else {
                            assert(items0[w + 1] == idx && items0[pos as int] == idx);
                            assert(false);
                        }
                    }
                }
                if v != idx && items0.contains(v) {
                    let w = choose|w: int| 0 <= w < items0.len() && items0[w] == v;
                    if w < pos {
                        assert(items1[w] == v);
                    } else {
                        assert(w != pos);
                        assert(items1[w - 1] == v);
                    }
                }
                if v == idx {
                    assert(items0[pos as int] == idx);
                    assert(items0.contains(idx));
                }
            }
        }
    } else {
        let ghost items0 = items@;
        items.push(idx);
        proof {
            let items1 = items@;
            assert forall|v: usize| items1.contains(v) <==> (if v == idx {
                !items0.contains(v)
            } else {
                items0.contains(v)
            }) by {
                assert(items1[items1.len() - 1] == idx);
                assert(items1.contains(idx));
                if items0.contains(idx) {
                    let w = choose|w: int| 0 <= w < items0.len() && items0[w] == idx;
                    assert(false);
                }
                if v != idx {
                    if items1.contains(v) {
                        let w = choose|w: int| 0 <= w < items1.len() && items1[w] == v;
                        assert(items0[w] == v);
                    }
                    if items0.contains(v) {
                        let w = choose|w: int| 0 <= w < items0.len() && items0[w] == v;
                        assert(items1[w] == v);
                    }
                }
            }
        }
    }
}

/// The paths of the marked entries, in mark order, skipping out-of-range
/// marks and the synthetic parent entry.
pub open spec fn marked_paths(entries: Seq<FileEntry>, marks: Seq<usize>) -> Seq<Seq<char>>
    decreases marks.len(),
{
    if marks.len() == 0 {
        Seq::<Seq<char>>::empty()
    } else {
        let pre = marked_paths(entries, marks.drop_last());
        let m = marks.last();
        if m < entries.len() && entries[m as int].name@ != seq!['.', '.'] {
            pre.push(entries[m as int].path@)
        } else {
            pre
        }
    }
}

/// The targets of a bulk operation: the marked entries' paths when marks
/// exist, else the highlighted entry's path unless it is the parent entry.
pub open spec fn selected_paths_spec(entries: Seq<FileEntry>, marks: Seq<usize>, highlighted: int) -> Seq<Seq<char>> {
    if marks.len() == 0 {
        if 0 <= highlighted < entries.len() && entries[highlighted].name@ != seq!['.', '.'] {
            seq![entries[highlighted].path@]
        } else {
            Seq::<Seq<char>>::empty()
        }
    } else {
        marked_paths(entries, marks)
    }
}

/// Two panes, one focused, split vertically or horizontally at an
/// adjustable percentage.
#[derive(Debug)]
pub struct SplitPaneView {
    pub left_pane: Pane,
    pub right_pane: Pane,
    pub focus: PaneFocus,
    pub vertical_split: bool,
    /// The left or top pane's share of the terminal, as a percentage
    /// clamped to `20..=80`.
    pub split_percent: u8,
}

impl SplitPaneView {
    /// A fresh view over two panes: focus on the left, vertical split,
    /// even shares.
    pub fn new(left_pane: Pane, right_pane: Pane) -> (s: Self)
        ensures
            s.left_pane == left_pane,
            s.right_pane == right_pane,
            s.focus == PaneFocus::Left,
            s.vertical_split == true,
            s.split_percent == 50,
    {
        SplitPaneView {
            left_pane,
            right_pane,
            focus: PaneFocus::Left,
            vertical_split: true,
            split_percent: 50,
        }
    }

    /// Moves input focus to the other pane.
    pub fn toggle_focus(&mut self)
        ensures
            final(self).focus == (match old(self).focus {
                PaneFocus::Left => PaneFocus::Right,
                PaneFocus::Right => PaneFocus::Left,
            }),
            final(self).left_pane == old(self).left_pane,
            final(self).right_pane == old(self).right_pane,
            final(self).vertical_split == old(self).vertical_split,
            final(self).split_percent == old(self).split_percent,
    {
        self.focus = match self.focus {
            PaneFocus::Left => PaneFocus::Right,
            PaneFocus::Right => PaneFocus::Left,
        };
    }

    /// Flips between vertical and horizontal splitting; pane state is
    /// untouched.
    pub fn toggle_layout(&mut self)
        ensures
            final(self).vertical_split == !old(self).vertical_split,
            final(self).left_pane == old(self).left_pane,
            final(self).right_pane == old(self).right_pane,
            final(self).focus == old(self).focus,
            final(self).split_percent == old(self).split_percent,
    {
        self.vertical_split = !self.vertical_split;
    }

    /// Shifts the split by the given percentage points, clamped to
    /// `20..=80` so neither pane can be driven to nothing.
    pub fn adjust_split(&mut self, delta: i8)
        ensures
            final(self).split_percent == (if old(self).split_percent + delta < 20 {
                20u8
            } else if old(self).split_percent + delta > 80 {
                80u8
            } else {
                (old(self).split_percent + delta) as u8
            }),
            20 <= final(self).split_percent <= 80,
            final(self).left_pane == old(self).left_pane,
            final(self).right_pane == old(self).right_pane,
            final(self).focus == old(self).focus,
            final(self).vertical_split == old(self).vertical_split,
    {
        let shifted: i16 = self.split_percent as i16 + delta as i16;
        if shifted < 20 {
            self.split_percent = 20;
        } else if shifted > 80 {
            self.split_percent = 80;
        } else {
            self.split_percent = shifted as u8;
        }
    }

    /// The pane that has input focus.
    pub fn get_active_pane(&self) -> (r: &Pane)
        ensures
            *r == (match self.focus {
                PaneFocus::Left => self.left_pane,
                PaneFocus::Right => self.right_pane,
            }),
    {
        match self.focus {
            PaneFocus::Left => &self.left_pane,
            PaneFocus::Right => &self.right_pane,
        }
    }

    /// The pane that has input focus, for mutation.
    pub fn get_active_pane_mut(&mut self) -> (r: &mut Pane)
        ensures
            *r == (match old(self).focus {
                PaneFocus::Left => old(self).left_pane,
                PaneFocus::Right => old(self).right_pane,
            }),
            final(self).focus == old(self).focus,
            final(self).vertical_split == old(self).vertical_split,
            final(self).split_percent == old(self).split_percent,
            (match old(self).focus {
                PaneFocus::Left => final(self).left_pane == *final(r)
                    && final(self).right_pane == old(self).right_pane,
                PaneFocus::Right => final(self).right_pane == *final(r)
                    && final(self).left_pane == old(self).left_pane,
            }),
    {
        match self.focus {
            PaneFocus::Left => &mut self.left_pane,
            PaneFocus::Right => &mut self.right_pane,
        }
    }

    /// The directory the non-focused pane should load to mirror the
    /// focused one; the embedder probes it and loads it into that pane.
    pub fn sync_directories(&self) -> (r: String)
        ensures
            r@ == (match self.focus {
                PaneFocus::Left => self.left_pane.current_dir@,
                PaneFocus::Right => self.right_pane.current_dir@,
            }),
    {
        match self.focus {
            PaneFocus::Left => self.left_pane.current_dir.clone(),
            PaneFocus::Right => self.right_pane.current_dir.clone(),
        }
    }
}

} // verus!
