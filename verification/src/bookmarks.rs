//! In-memory bookmark store: named paths with optional one-character
//! shortcuts, access counters and timestamps. Persistence is the embedder's
//! job: it loads a saved list through `from_list` and writes the list back
//! after changes; clock readings come in as plain seconds.

use vstd::prelude::*;

verus! {

/// One bookmark: a named path, its optional shortcut and its usage record.
#[derive(Debug)]
pub struct Bookmark {
    pub name: String,
    pub path: String,
    pub shortcut: Option<char>,
    /// Creation time in seconds.
    pub created_at: u64,
    /// Last access in seconds, once accessed.
    pub last_accessed: Option<u64>,
    pub access_count: usize,
}

impl Clone for Bookmark {
    fn clone(&self) -> (r: Self)
        ensures
            r == *self,
    {
        Bookmark {
            name: self.name.clone(),
            path: self.path.clone(),
            shortcut: self.shortcut,
            created_at: self.created_at,
            last_accessed: self.last_accessed,
            access_count: self.access_count,
        }
    }
}

/// Why a bookmark operation was refused.
#[derive(Debug, Clone, Copy, PartialEq, Eq, Structural)]
pub enum BookmarkError {
    PathAlreadyBookmarked,
    ShortcutInUse,
    InvalidIndex,
}

/// Whether some bookmark of the list uses this shortcut.
pub open spec fn shortcut_taken(bs: Seq<Bookmark>, c: char) -> bool {
    exists|i: int| 0 <= i < bs.len() && bs[i].shortcut == Some(c)
}

/// Whether some bookmark of the list points at this path.
pub open spec fn path_bookmarked(bs: Seq<Bookmark>, p: Seq<char>) -> bool {
    exists|i: int| 0 <= i < bs.len() && (#[trigger] bs[i]).path@ == p
}

/// No two bookmarks share a shortcut.
pub open spec fn shortcuts_distinct(bs: Seq<Bookmark>) -> bool {
    forall|i: int, j: int| 0 <= i < j < bs.len() && (#[trigger] bs[i]).shortcut is Some
        ==> bs[i].shortcut != (#[trigger] bs[j]).shortcut
}

/// The candidate shortcut characters, `a..=z` then `0..=9`, in order.
pub open spec fn candidate_shortcuts() -> Seq<char> {
    Seq::new(26, |i: int| ((97 + i) as u8) as char)
        + Seq::new(10, |i: int| ((48 + i) as u8) as char)
}

/// The candidates no bookmark uses, in candidate order.
pub open spec fn available_shortcuts_spec(bs: Seq<Bookmark>, cands: Seq<char>) -> Seq<char>
    decreases cands.len(),
{
    if cands.len() == 0 {
        Seq::<char>::empty()
    } else {
        let pre = available_shortcuts_spec(bs, cands.drop_last());
        if !shortcut_taken(bs, cands.last()) {
            pre.push(cands.last())
        } else {
            pre
        }
    }
}

/// The ordered list of bookmarks the interactive view works on.
#[derive(Debug)]
pub struct BookmarksManager {
    pub bookmarks: Vec<Bookmark>,
}

impl BookmarksManager {
    /// An empty store.
    pub fn new() -> (s: Self)
        ensures
            s.bookmarks@.len() == 0,
    {
        BookmarksManager { bookmarks: Vec::new() }
    }

    /// A store over a loaded list, dropping any shortcut an earlier
    /// bookmark of the result already uses, so no two kept shortcuts
    /// collide.
    pub fn from_list(list: Vec<Bookmark>) -> (s: Self)
        ensures
            s.bookmarks@.len() == list@.len(),
            forall|i: int| 0 <= i < list@.len() ==> {
                let b = #[trigger] s.bookmarks@[i];
                &&& b.name == list@[i].name
                &&& b.path == list@[i].path
                &&& b.created_at == list@[i].created_at
                &&& b.last_accessed == list@[i].last_accessed
                &&& b.access_count == list@[i].access_count
                &&& b.shortcut == (match list@[i].shortcut {
                    Some(c) => if shortcut_taken(s.bookmarks@.take(i), c) {
                        None::<char>
                    } else {
                        Some(c)
                    },
                    None => None::<char>,
                })
            },
            shortcuts_distinct(s.bookmarks@),
    {
        let mut out: Vec<Bookmark> = Vec::new();
        let mut i: usize = 0;
        while i < list.len()
            invariant
                0 <= i <= list@.len(),
                out@.len() == i,
                forall|k: int| 0 <= k < i ==> {
                    let b = #[trigger] out@[k];
                    &&& b.name == list@[k].name
                    &&& b.path == list@[k].path
                    &&& b.created_at == list@[k].created_at
                    &&& b.last_accessed == list@[k].last_accessed
                    &&& b.access_count == list@[k].access_count
                    &&& b.shortcut == (match list@[k].shortcut {
                        Some(c) => if shortcut_taken(out@.take(k), c) {
                            None::<char>
                        } else {
                            Some(c)
                        },
                        None => None::<char>,
                    })
                },
                shortcuts_distinct(out@),
            decreases list@.len() - i,
        {
            let mut b = list[i].clone();
            let shortcut = match b.shortcut {
                Some(c) => {
                    let mut taken: bool = false;
                    let mut k: usize = 0;
                    while k < out.len()
                        invariant
                            0 <= k <= out@.len(),
                            taken == shortcut_taken(out@.take(k as int), c),
                        decreases out@.len() - k,
                    {
                        if match out[k].shortcut {
                            Some(d) => d == c,
                            None => false,
                        } {
                            taken = true;
                            proof {
                                assert(out@.take(k + 1)[k as int].shortcut == Some(c));
                            }
                        }
                        proof {
                            if !taken {
                                assert forall|m: int| 0 <= m < k + 1
                                    implies (#[trigger] out@.take(k + 1)[m]).shortcut != Some(c) by {
                                    if m < k {
                                        assert(out@.take(k as int)[m] == out@.take(k + 1)[m]);
                                    }
                                }
                            } else {
                                if shortcut_taken(out@.take(k as int), c) {
                                    let w = choose|w: int| 0 <= w < k && out@.take(k as int)[w].shortcut == Some(c);
                                    assert(out@.take(k + 1)[w].shortcut == Some(c));
                                }
                            }
                        }
                        k = k + 1;
                    }
                    proof {
                        assert(out@.take(out@.len() as int) =~= out@);
                    }
                    if taken {
                        None
                    } else {
                        Some(c)
                    }
                },
                None => None,
            };
            b.shortcut = shortcut;
            let ghost out0 = out@;
            out.push(b);
            proof {
                assert forall|k: int| 0 <= k < i + 1 implies {
                    let bb = #[trigger] out@[k];
                    &&& bb.name == list@[k].name
                    &&& bb.path == list@[k].path
                    &&& bb.created_at == list@[k].created_at
                    &&& bb.last_accessed == list@[k].last_accessed
                    &&& bb.access_count == list@[k].access_count
                    &&& bb.shortcut == (match list@[k].shortcut {
                        Some(c) => if shortcut_taken(out@.take(k), c) {
                            None::<char>
                        } else {
                            Some(c)
                        },
                        None => None::<char>,
                    })
                } by {
                    assert(out@.take(k) =~= out0.take(k));
                    if k < i {
                        assert(out@[k] == out0[k]);
                    } else {
                        assert(out@.take(k) =~= out0);
                    }
                }
                assert forall|a: int, bidx: int| 0 <= a < bidx < out@.len()
                    && (#[trigger] out@[a]).shortcut is Some
                    implies out@[a].shortcut != (#[trigger] out@[bidx]).shortcut by {
                    if bidx == out@.len() - 1 {
                        if out@[bidx].shortcut is Some {
                            assert(out@.take(bidx) =~= out0);
                            if out@[a].shortcut == out@[bidx].shortcut {
                                assert(out0[a].shortcut == out@[bidx].shortcut);
                                assert(shortcut_taken(out0, out@[bidx].shortcut.unwrap()));
                            }
                        }
                    } else {
                        assert(out@[a] == out0[a] && out@[bidx] == out0[bidx]);
                    }
                }
            }
            i = i + 1;
        }
        BookmarksManager { bookmarks: out }
    }

    /// Whether some bookmark already uses this shortcut.
    pub fn shortcut_in_use(&self, c: char) -> (r: bool)
        ensures
            r == shortcut_taken(self.bookmarks@, c),
    {
        let mut k: usize = 0;
        let mut taken: bool = false;
        while k < self.bookmarks.len()
            invariant
                0 <= k <= self.bookmarks@.len(),
                taken == shortcut_taken(self.bookmarks@.take(k as int), c),
            decreases self.bookmarks@.len() - k,
        {
            if match self.bookmarks[k].shortcut {
                Some(d) => d == c,
                None => false,
            } {
                taken = true;
                proof {
                    assert(self.bookmarks@.take(k + 1)[k as int].shortcut == Some(c));
                }
            }
            proof {
                let pre = self.bookmarks@.take(k as int);
                let cur = self.bookmarks@.take(k + 1);
                if !taken {
                    assert forall|m: int| 0 <= m < k + 1
                        implies (#[trigger] cur[m]).shortcut != Some(c) by {
                        if m < k {
                            assert(pre[m] == cur[m]);
                        }
                    }
                } else {
                    if shortcut_taken(pre, c) {
                        let w = choose|w: int| 0 <= w < k && pre[w].shortcut == Some(c);
                        assert(cur[w].shortcut == Some(c));
                    }
                }
            }
            k = k + 1;
        }
        proof {
            assert(self.bookmarks@.take(self.bookmarks@.len() as int) =~= self.bookmarks@);
        }
        taken
    }

    /// Whether some bookmark already points at this path.
    fn path_in_use(&self, path: &str) -> (r: bool)
        ensures
            r == path_bookmarked(self.bookmarks@, path@),
    {
        let mut k: usize = 0;
        while k < self.bookmarks.len()
            invariant
                0 <= k <= self.bookmarks@.len(),
                forall|m: int| 0 <= m < k ==> (#[trigger] self.bookmarks@[m]).path@ != path@,
            decreases self.bookmarks@.len() - k,
        {
            if crate::text::str_eq(self.bookmarks[k].path.as_str(), path) {
                return true;
            }
            k = k + 1;
        }
        false
    }

    /// Appends a bookmark without any checks; `now` stamps its creation.
    pub fn add_bookmark_internal(&mut self, name: String, path: String, shortcut: Option<char>, now: u64)
        ensures
            final(self).bookmarks@ == old(self).bookmarks@.push(Bookmark {
                name: name,
                path: path,
                shortcut: shortcut,
                created_at: now,
                last_accessed: None::<u64>,
                access_count: 0usize,
            }),
    {
        self.bookmarks.push(Bookmark {
            name,
            path,
            shortcut,
            created_at: now,
            last_accessed: None,
            access_count: 0,
        });
    }

    /// Adds a bookmark: refused when the path is already bookmarked or the
    /// shortcut is already in use, each with its own error; otherwise the
    /// bookmark is appended with a zero access record. The embedder checks
    /// that the path exists before calling, as it owns the filesystem.
    pub fn add_bookmark(&mut self, name: String, path: String, shortcut: Option<char>, now: u64) -> (r: Result<(), BookmarkError>)
        ensures
            (match r {
                Ok(()) => {
                    &&& !path_bookmarked(old(self).bookmarks@, path@)
                    &&& (shortcut is Some ==> !shortcut_taken(old(self).bookmarks@, shortcut.unwrap()))
                    &&& final(self).bookmarks@ == old(self).bookmarks@.push(Bookmark {
                        name: name,
                        path: path,
                        shortcut: shortcut,
                        created_at: now,
                        last_accessed: None::<u64>,
                        access_count: 0usize,
                    })
                },
                Err(e) => {
                    &&& *final(self) == *old(self)
                    &&& (e == BookmarkError::PathAlreadyBookmarked
                        <==> path_bookmarked(old(self).bookmarks@, path@))
                    &&& (e == BookmarkError::ShortcutInUse ==> {
                        &&& shortcut is Some
                        &&& shortcut_taken(old(self).bookmarks@, shortcut.unwrap())
                    })
                },
            }),
            r is Err <==> path_bookmarked(old(self).bookmarks@, path@)
                || (shortcut is Some && shortcut_taken(old(self).bookmarks@, shortcut.unwrap())),
    {
        if self.path_in_use(path.as_str()) {
            return Err(BookmarkError::PathAlreadyBookmarked);
        }
        match shortcut {
            Some(c) => {
                if self.shortcut_in_use(c) {
                    return Err(BookmarkError::ShortcutInUse);
                }
            },
            None => {},
        }
        self.add_bookmark_internal(name, path, shortcut, now);
        Ok(())
    }

    /// Removes the bookmark at the index; an out-of-range index is refused.
    pub fn remove_bookmark(&mut self, index: usize) -> (r: Result<(), BookmarkError>)
        ensures
            (match r {
                Ok(()) => index < old(self).bookmarks@.len()
                    && final(self).bookmarks@ == old(self).bookmarks@.remove(index as int),
                Err(e) => e == BookmarkError::InvalidIndex
                    && index >= old(self).bookmarks@.len()
                    && *final(self) == *old(self),
            }),
            r is Ok <==> index < old(self).bookmarks@.len(),
    {
        if index >= self.bookmarks.len() {
            return Err(BookmarkError::InvalidIndex);
        }
        self.bookmarks.remove(index);
        Ok(())
    }

    /// Renames the bookmark at the index; an out-of-range index is refused.
    pub fn rename_bookmark(&mut self, index: usize, new_name: String) -> (r: Result<(), BookmarkError>)
        ensures
            (match r {
                Ok(()) => index < old(self).bookmarks@.len()
                    && final(self).bookmarks@ == old(self).bookmarks@.update(index as int, Bookmark {
                        name: new_name,
                        ..old(self).bookmarks@[index as int]
                    }),
                Err(e) => e == BookmarkError::InvalidIndex
                    && index >= old(self).bookmarks@.len()
                    && *final(self) == *old(self),
            }),
            r is Ok <==> index < old(self).bookmarks@.len(),
    {
        if index >= self.bookmarks.len() {
            return Err(BookmarkError::InvalidIndex);
        }
        let mut b = self.bookmarks[index].clone();
        b.name = new_name;
        self.bookmarks.set(index, b);
        Ok(())
    }

    /// Gives the bookmark at the index a new shortcut (or none): refused
    /// for an out-of-range index, or when another bookmark already uses the
    /// new shortcut.
    #[verifier::loop_isolation(false)]
    pub fn update_shortcut(&mut self, index: usize, new_shortcut: Option<char>) -> (r: Result<(), BookmarkError>)
        ensures
            (match r {
                Ok(()) => index < old(self).bookmarks@.len()
                    && final(self).bookmarks@ == old(self).bookmarks@.update(index as int, Bookmark {
                        shortcut: new_shortcut,
                        ..old(self).bookmarks@[index as int]
                    }),
                Err(e) => *final(self) == *old(self) && (
                    if index >= old(self).bookmarks@.len() {
                        e == BookmarkError::InvalidIndex
                    } else {
                        e == BookmarkError::ShortcutInUse
                            && new_shortcut is Some
                            && shortcut_taken_by_other(old(self).bookmarks@, index as int, new_shortcut.unwrap())
                    }
                ),
            }),
            r is Ok <==> index < old(self).bookmarks@.len()
                && (new_shortcut is Some
                    ==> !shortcut_taken_by_other(old(self).bookmarks@, index as int, new_shortcut.unwrap())),
    {
        if index >= self.bookmarks.len() {
            return Err(BookmarkError::InvalidIndex);
        }
        match new_shortcut {
            Some(c) => {
                let mut k: usize = 0;
                while k < self.bookmarks.len()
                    invariant
                        self.bookmarks@ == old(self).bookmarks@,
                        0 <= k <= self.bookmarks@.len(),
                        index < self.bookmarks@.len(),
                        forall|m: int| 0 <= m < k && m != index
                            ==> (#[trigger] self.bookmarks@[m]).shortcut != Some(c),
                    decreases self.bookmarks@.len() - k,
                {
                    if k != index && (match self.bookmarks[k].shortcut {
                        Some(d) => d == c,
                        None => false,
                    }) {
                        proof {
                            assert(old(self).bookmarks@[k as int].shortcut == Some(c));
                            assert(shortcut_taken_by_other(old(self).bookmarks@, index as int, c));
                        }
                        return Err(BookmarkError::ShortcutInUse);
                    }
                    k = k + 1;
                }
            },
            None => {},
        }
        let mut b = self.bookmarks[index].clone();
        b.shortcut = new_shortcut;
        self.bookmarks.set(index, b);
        Ok(())
    }

    /// The first bookmark using the shortcut, with its access record
    /// bumped: the counter grows by one and the last access becomes `now`.
    pub fn get_bookmark_by_shortcut(&mut self, shortcut: char, now: u64) -> (r: Option<Bookmark>)
        ensures
            (match r {
                Some(b) => {
                    exists|i: int| {
                        &&& 0 <= i < old(self).bookmarks@.len()
                        &&& (#[trigger] old(self).bookmarks@[i]).shortcut == Some(shortcut)
                        &&& (forall|m: int| 0 <= m < i
                            ==> (#[trigger] old(self).bookmarks@[m]).shortcut != Some(shortcut))
                        &&& b == (Bookmark {
                            last_accessed: Some(now),
                            access_count: bump(old(self).bookmarks@[i].access_count),
                            ..old(self).bookmarks@[i]
                        })
                        &&& final(self).bookmarks@ == old(self).bookmarks@.update(i, b)
                    }
                },
                None => !shortcut_taken(old(self).bookmarks@, shortcut)
                    && *final(self) == *old(self),
            }),
            r is Some <==> shortcut_taken(old(self).bookmarks@, shortcut),
    {
        let mut k: usize = 0;
        while k < self.bookmarks.len()
            invariant
                *self == *old(self),
                0 <= k <= self.bookmarks@.len(),
                forall|m: int| 0 <= m < k
                    ==> (#[trigger] self.bookmarks@[m]).shortcut != Some(shortcut),
            decreases self.bookmarks@.len() - k,
        {
            if match self.bookmarks[k].shortcut {
                Some(d) => d == shortcut,
                None => false,
            } {
                let mut b = self.bookmarks[k].clone();
                b.last_accessed = Some(now);
                if b.access_count < usize::MAX {
                    b.access_count = b.access_count + 1;
                }
                self.bookmarks.set(k, b.clone());
                return Some(b);
            }
            k = k + 1;
        }
        None
    }

    /// The bookmark at the index, with its access record bumped the same
    /// way.
    pub fn get_bookmark_by_index(&mut self, index: usize, now: u64) -> (r: Option<Bookmark>)
        ensures
            (match r {
                Some(b) => {
                    &&& index < old(self).bookmarks@.len()
                    &&& b == (Bookmark {
                        last_accessed: Some(now),
                        access_count: bump(old(self).bookmarks@[index as int].access_count),
                        ..old(self).bookmarks@[index as int]
                    })
                    &&& final(self).bookmarks@ == old(self).bookmarks@.update(index as int, b)
                },
                None => index >= old(self).bookmarks@.len()
                    && *final(self) == *old(self),
            }),
            r is Some <==> index < old(self).bookmarks@.len(),
    {
        if index >= self.bookmarks.len() {
            return None;
        }
        let mut b = self.bookmarks[index].clone();
        b.last_accessed = Some(now);
        if b.access_count < usize::MAX {
            b.access_count = b.access_count + 1;
        }
        self.bookmarks.set(index, b.clone());
        Some(b)
    }

    /// The bookmarks, in order.
    pub fn list_bookmarks(&self) -> (r: &Vec<Bookmark>)
        ensures
            r@ == self.bookmarks@,
    {
        &self.bookmarks
    }

    /// The index of the first bookmark pointing at the path, if any.
    pub fn find_bookmark_by_path(&self, path: &str) -> (r: Option<usize>)
        ensures
            (match r {
                Some(i) => i < self.bookmarks@.len()
                    && self.bookmarks@[i as int].path@ == path@
                    && forall|m: int| 0 <= m < i ==> (#[trigger] self.bookmarks@[m]).path@ != path@,
                None => !path_bookmarked(self.bookmarks@, path@),
            }),
            r is Some <==> path_bookmarked(self.bookmarks@, path@),
    {
        let mut k: usize = 0;
        while k < self.bookmarks.len()
            invariant
                0 <= k <= self.bookmarks@.len(),
                forall|m: int| 0 <= m < k ==> (#[trigger] self.bookmarks@[m]).path@ != path@,
            decreases self.bookmarks@.len() - k,
        {
            if crate::text::str_eq(self.bookmarks[k].path.as_str(), path) {
                return Some(k);
            }
            k = k + 1;
        }
        None
    }

    /// Reorders the bookmarks by access count, most used first; the same
    /// bookmarks remain.
    #[verifier::loop_isolation(false)]
    pub fn sort_by_frequency(&mut self)
        ensures
            forall|i: int, j: int| 0 <= i < j < final(self).bookmarks@.len()
                ==> (#[trigger] final(self).bookmarks@[i]).access_count
                    >= (#[trigger] final(self).bookmarks@[j]).access_count,
            final(self).bookmarks@.to_multiset() == old(self).bookmarks@.to_multiset(),
    {
        broadcast use vstd::seq_lib::group_to_multiset_ensures;
        broadcast use vstd::multiset::group_multiset_axioms;

        let ghost orig = self.bookmarks@;
        let mut out: Vec<Bookmark> = Vec::new();
        let mut i: usize = 0;
        proof {
            assert(orig.take(0) =~= Seq::<Bookmark>::empty());
            assert(out@.to_multiset() =~= orig.take(0).to_multiset());
        }
        while i < self.bookmarks.len()
            invariant
                self.bookmarks@ == orig,
                0 <= i <= orig.len(),
                forall|a: int, b: int| 0 <= a < b < out@.len()
                    ==> (#[trigger] out@[a]).access_count >= (#[trigger] out@[b]).access_count,
                out@.to_multiset() == orig.take(i as int).to_multiset(),
            decreases orig.len() - i,
        {
            let ghost out0 = out@;
            let x = self.bookmarks[i].clone();
            let mut k: usize = 0;
            while k < out.len() && out[k].access_count >= x.access_count
                invariant
                    0 <= k <= out@.len(),
                    out@ == out0,
                    x == orig[i as int],
                    forall|m: int| 0 <= m < k
                        ==> (#[trigger] out@[m]).access_count >= x.access_count,
                decreases out@.len() - k,
            {
                k = k + 1;
            }
            let ghost xe = x;
            out.insert(k, x);
            proof {
                lemma_insert_keeps_sorted_desc(out0, xe, k as int);
                lemma_insert_multiset(out0, xe, k as int);
                assert(out@ == out0.insert(k as int, xe));
                assert(out@.to_multiset() == out0.to_multiset().insert(xe));
                assert(orig.take(i + 1) =~= orig.take(i as int).push(orig[i as int]));
                assert(orig.take(i as int).push(orig[i as int]).to_multiset()
                    == orig.take(i as int).to_multiset().insert(orig[i as int]));
                assert(out@.to_multiset() == orig.take(i + 1).to_multiset());
            }
            i = i + 1;
        }
        proof {
            assert(orig.take(orig.len() as int) =~= orig);
        }
        self.bookmarks = out;
    }

    /// Reorders the bookmarks by name, code point order; the same
    /// bookmarks remain.
    #[verifier::loop_isolation(false)]
    pub fn sort_by_name(&mut self)
        ensures
            forall|i: int, j: int| 0 <= i < j < final(self).bookmarks@.len()
                ==> crate::text::lex_le((#[trigger] final(self).bookmarks@[i]).name@,
                    (#[trigger] final(self).bookmarks@[j]).name@),
            final(self).bookmarks@.to_multiset() == old(self).bookmarks@.to_multiset(),
    {
        broadcast use vstd::seq_lib::group_to_multiset_ensures;
        broadcast use vstd::multiset::group_multiset_axioms;

        let ghost orig = self.bookmarks@;
        let mut out: Vec<Bookmark> = Vec::new();
        let mut i: usize = 0;
        proof {
            assert(orig.take(0) =~= Seq::<Bookmark>::empty());
            assert(out@.to_multiset() =~= orig.take(0).to_multiset());
        }
        while i < self.bookmarks.len()
            invariant
                self.bookmarks@ == orig,
                0 <= i <= orig.len(),
                forall|a: int, b: int| 0 <= a < b < out@.len()
                    ==> crate::text::lex_le((#[trigger] out@[a]).name@, (#[trigger] out@[b]).name@),
                out@.to_multiset() == orig.take(i as int).to_multiset(),
            decreases orig.len() - i,
        {
            let ghost out0 = out@;
            let x = self.bookmarks[i].clone();
            let mut k: usize = 0;
            while k < out.len() && crate::text::str_le(out[k].name.as_str(), x.name.as_str())
                invariant
                    0 <= k <= out@.len(),
                    out@ == out0,
                    x == orig[i as int],
                    forall|m: int| 0 <= m < k
                        ==> crate::text::lex_le((#[trigger] out@[m]).name@, x.name@),
                decreases out@.len() - k,
            {
                k = k + 1;
            }
            proof {
                if k < out@.len() {
                    crate::text::lemma_lex_le_total(out@[k as int].name@, x.name@);
                }
            }
            let ghost xe = x;
            out.insert(k, x);
            proof {
                lemma_insert_keeps_sorted_names(out0, xe, k as int);
                lemma_insert_multiset(out0, xe, k as int);
                assert(out@ == out0.insert(k as int, xe));
                assert(out@.to_multiset() == out0.to_multiset().insert(xe));
                assert(orig.take(i + 1) =~= orig.take(i as int).push(orig[i as int]));
                assert(orig.take(i as int).push(orig[i as int]).to_multiset()
                    == orig.take(i as int).to_multiset().insert(orig[i as int]));
                assert(out@.to_multiset() == orig.take(i + 1).to_multiset());
            }
            i = i + 1;
        }
        proof {
            assert(orig.take(orig.len() as int) =~= orig);
        }
        self.bookmarks = out;
    }

    /// The shortcut characters no bookmark uses: the letters `a..=z` then
    /// the digits `0..=9`, in that order.
    pub fn get_available_shortcuts(&self) -> (r: Vec<char>)
        ensures
            r@ == available_shortcuts_spec(self.bookmarks@, candidate_shortcuts()),
    {
        let mut cands: Vec<char> = Vec::new();
        let mut b: u8 = 97;
        while b <= 122
            invariant
                97 <= b <= 123,
                cands@ == candidate_shortcuts().take(b - 97),
            decreases 123 - b,
        {
            cands.push(b as char);
            proof {
                assert(cands@ =~= candidate_shortcuts().take(b - 97 + 1));
            }
            b = b + 1;
        }
        let mut d: u8 = 48;
        while d <= 57
            invariant
                48 <= d <= 58,
                cands@ == candidate_shortcuts().take(26 + d - 48),
            decreases 58 - d,
        {
            cands.push(d as char);
            proof {
                assert(cands@ =~= candidate_shortcuts().take(26 + d - 48 + 1));
            }
            d = d + 1;
        }
        proof {
            assert(candidate_shortcuts().take(36) =~= candidate_shortcuts());
        }

        let mut out: Vec<char> = Vec::new();
        let mut i: usize = 0;
        while i < cands.len()
            invariant
                0 <= i <= cands@.len(),
                cands@ == candidate_shortcuts(),
                out@ == available_shortcuts_spec(self.bookmarks@, cands@.take(i as int)),
            decreases cands@.len() - i,
        {
            if !self.shortcut_in_use(cands[i]) {
                out.push(cands[i]);
            }
            proof {
                assert(cands@.take(i + 1).drop_last() =~= cands@.take(i as int));
                assert(cands@.take(i + 1).last() == cands@[i as int]);
            }
            i = i + 1;
        }
        proof {
            assert(cands@.take(cands@.len() as int) =~= cands@);
        }
        out
    }
}

/// Whether a bookmark other than the one at `idx` uses this shortcut.
pub open spec fn shortcut_taken_by_other(bs: Seq<Bookmark>, idx: int, c: char) -> bool {
    exists|i: int| 0 <= i < bs.len() && i != idx && bs[i].shortcut == Some(c)
}

/// An access counter grown by one, stopping at its ceiling.
pub open spec fn bump(count: usize) -> usize {
    if count < usize::MAX {
        (count + 1) as usize
    } else {
        count
    }
}

/// Inserting at a point below everything greater-or-equal and above
/// everything smaller keeps a descending order.
proof fn lemma_insert_keeps_sorted_desc(s: Seq<Bookmark>, x: Bookmark, k: int)
    requires
        0 <= k <= s.len(),
        forall|a: int, b: int| 0 <= a < b < s.len()
            ==> (#[trigger] s[a]).access_count >= (#[trigger] s[b]).access_count,
        forall|m: int| 0 <= m < k ==> (#[trigger] s[m]).access_count >= x.access_count,
        k < s.len() ==> x.access_count >= s[k].access_count,
    ensures
        forall|a: int, b: int| 0 <= a < b < s.insert(k, x).len()
            ==> (#[trigger] s.insert(k, x)[a]).access_count >= (#[trigger] s.insert(k, x)[b]).access_count,
{
    let t = s.insert(k, x);
    assert forall|a: int, b: int| 0 <= a < b < t.len()
        implies (#[trigger] t[a]).access_count >= (#[trigger] t[b]).access_count by {
        if b < k {
            assert(t[a] == s[a] && t[b] == s[b]);
        } else if b == k {
            assert(t[a] == s[a] && t[b] == x);
        } else if a < k {
            assert(t[a] == s[a] && t[b] == s[b - 1]);
        } else if a == k {
            assert(t[a] == x && t[b] == s[b - 1]);
        } else {
            assert(t[a] == s[a - 1] && t[b] == s[b - 1]);
        }
    }
}

/// The same, for ascending name order.
proof fn lemma_insert_keeps_sorted_names(s: Seq<Bookmark>, x: Bookmark, k: int)
    requires
        0 <= k <= s.len(),
        forall|a: int, b: int| 0 <= a < b < s.len()
            ==> crate::text::lex_le((#[trigger] s[a]).name@, (#[trigger] s[b]).name@),
        forall|m: int| 0 <= m < k ==> crate::text::lex_le((#[trigger] s[m]).name@, x.name@),
        k < s.len() ==> crate::text::lex_le(x.name@, s[k].name@),
    ensures
        forall|a: int, b: int| 0 <= a < b < s.insert(k, x).len()
            ==> crate::text::lex_le((#[trigger] s.insert(k, x)[a]).name@,
                (#[trigger] s.insert(k, x)[b]).name@),
{
    let t = s.insert(k, x);
    assert forall|a: int, b: int| 0 <= a < b < t.len()
        implies crate::text::lex_le((#[trigger] t[a]).name@, (#[trigger] t[b]).name@) by {
        if b < k {
            assert(t[a] == s[a] && t[b] == s[b]);
        } else if b == k {
            assert(t[a] == s[a] && t[b] == x);
        } else if a < k {
            assert(t[a] == s[a] && t[b] == s[b - 1]);
        } else if a == k {
            assert(t[a] == x && t[b] == s[b - 1]);
            if b - 1 > k {
                crate::text::lemma_lex_le_trans(x.name@, s[k].name@, s[b - 1].name@);
            }
        } else {
            assert(t[a] == s[a - 1] && t[b] == s[b - 1]);
        }
    }
}

/// Inserting anywhere adds exactly that element to the contents.
proof fn lemma_insert_multiset(s: Seq<Bookmark>, x: Bookmark, k: int)
    requires
        0 <= k <= s.len(),
    ensures
        s.insert(k, x).to_multiset() == s.to_multiset().insert(x),
{
    broadcast use vstd::seq_lib::group_to_multiset_ensures;
    broadcast use vstd::multiset::group_multiset_axioms;

    let head = s.take(k);
    let tail = s.skip(k);
    assert(s.insert(k, x) =~= head + seq![x] + tail);
    assert(Seq::<Bookmark>::empty().to_multiset() =~= vstd::multiset::Multiset::<Bookmark>::empty()) by {
        assert(forall|y: Bookmark| !Seq::<Bookmark>::empty().contains(y));
    }
    assert(seq![x] =~= Seq::<Bookmark>::empty().push(x));
    assert(seq![x].to_multiset() =~= vstd::multiset::Multiset::<Bookmark>::empty().insert(x));
    vstd::seq_lib::lemma_multiset_commutative(head + seq![x], tail);
    vstd::seq_lib::lemma_multiset_commutative(head, seq![x]);
    vstd::seq_lib::lemma_multiset_commutative(head, tail);
    assert(head + tail =~= s);
    assert(s.insert(k, x).to_multiset() =~= s.to_multiset().insert(x));
}

} // verus!
