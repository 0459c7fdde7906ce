//! Building a directory listing from probed entries: the synthetic parent
//! entry first, then directories, then files, each partition sorted
//! case-insensitively by name; hidden names are dropped. The embedder
//! probes the directory and hands the raw entries in; on an unreadable
//! directory it asks for the single synthetic error entry instead.

use vstd::prelude::*;
use vstd::multiset::Multiset;
use crate::models::file_entry::FileEntry;
use crate::text::{lex_le, lemma_lex_le_total, lemma_lex_le_trans, lower_of, lowercase, str_eq, str_le};

verus! {

/// The index of the last `/` in `s`, or `-1` when there is none.
pub open spec fn last_slash_index(s: Seq<char>) -> int
    decreases s.len(),
{
    if s.len() == 0 {
        -1
    } else if s.last() == '/' {
        s.len() - 1
    } else {
        last_slash_index(s.drop_last())
    }
}

/// The parent of an absolute slash-separated path: everything before the
/// last separator, the root's parent being nothing.
pub open spec fn parent_dir(p: Seq<char>) -> Option<Seq<char>> {
    if p == seq!['/'] || last_slash_index(p) < 0 {
        None::<Seq<char>>
    } else if last_slash_index(p) == 0 {
        Some(seq!['/'])
    } else {
        Some(p.take(last_slash_index(p)))
    }
}

/// Computes the parent directory of a path, as `parent_dir` describes.
pub fn parent_of(path: &str) -> (r: Option<String>)
    ensures
        (match r {
            Some(p) => parent_dir(path@) == Some(p@),
            None => parent_dir(path@) is None,
        }),
{
    let len = path.unicode_len();
    if len == 1 && path.get_char(0) == '/' {
        proof {
            assert(path@ =~= seq!['/']);
        }
        return None;
    }
    let mut k: usize = len;
    let mut found: bool = false;
    proof {
        assert(path@.take(len as int) =~= path@);
    }
    while k > 0 && !found
        invariant
            0 <= k <= len,
            len == path@.len(),
            !found ==> last_slash_index(path@) == last_slash_index(path@.take(k as int)),
            found ==> k >= 1 && last_slash_index(path@) == k - 1,
        decreases k + (if found { 0int } else { 1int }),
    {
        if path.get_char(k - 1) == '/' {
            found = true;
            proof {
                assert(path@.take(k as int).last() == '/');
                assert(last_slash_index(path@.take(k as int)) == k - 1);
            }
        } else {
            proof {
                assert(path@.take(k as int).drop_last() =~= path@.take(k - 1));
            }
            k = k - 1;
        }
    }
    if !found {
        proof {
            assert(path@.take(0) =~= Seq::<char>::empty());
        }
        None
    } else if k == 1 {
        proof {
            reveal_strlit("/");
            assert("/"@ =~= seq!['/']);
            assert(path@ != seq!['/']);
        }
        Some(String::from_str("/"))
    } else {
        let p = path.substring_char(0, k - 1);
        proof {
            assert(p@ =~= path@.take(k - 1));
            assert(path@ != seq!['/']);
        }
        Some(String::from_str(p))
    }
}

/// The last path segment: what follows the last `/`, when non-empty.
pub open spec fn last_segment_of(p: Seq<char>) -> Option<Seq<char>> {
    let i = last_slash_index(p);
    if i >= 0 && i < p.len() - 1 {
        Some(p.skip(i + 1))
    } else {
        None::<Seq<char>>
    }
}

/// Extracts the last path segment, as `last_segment_of` describes.
pub fn last_segment(path: &str) -> (r: Option<String>)
    ensures
        (match r {
            Some(s) => last_segment_of(path@) == Some(s@),
            None => last_segment_of(path@) is None,
        }),
{
    let len = path.unicode_len();
    let mut k: usize = len;
    let mut found: bool = false;
    proof {
        assert(path@.take(len as int) =~= path@);
    }
    while k > 0 && !found
        invariant
            0 <= k <= len,
            len == path@.len(),
            !found ==> last_slash_index(path@) == last_slash_index(path@.take(k as int)),
            found ==> k >= 1 && last_slash_index(path@) == k - 1,
        decreases k + (if found { 0int } else { 1int }),
    {
        if path.get_char(k - 1) == '/' {
            found = true;
            proof {
                assert(path@.take(k as int).last() == '/');
                assert(last_slash_index(path@.take(k as int)) == k - 1);
            }
        } else {
            proof {
                assert(path@.take(k as int).drop_last() =~= path@.take(k - 1));
            }
            k = k - 1;
        }
    }
    if found && k < len {
        let s = path.substring_char(k, len);
        proof {
            assert(s@ =~= path@.skip(k as int));
        }
        Some(String::from_str(s))
    } else {
        proof {
            if !found {
                assert(path@.take(0) =~= Seq::<char>::empty());
            }
        }
        None
    }
}

/// A name the listing hides: it starts with a dot and is not the synthetic
/// parent name.
pub open spec fn hidden_name(name: Seq<char>) -> bool {
    name.len() > 0 && name[0] == '.' && name != seq!['.', '.']
}

/// The probed entries that are directories and not hidden, in probe order.
pub open spec fn vis_dirs(c: Seq<FileEntry>) -> Seq<FileEntry>
    decreases c.len(),
{
    if c.len() == 0 {
        Seq::<FileEntry>::empty()
    } else {
        let pre = vis_dirs(c.drop_last());
        if !hidden_name(c.last().name@) && c.last().is_dir {
            pre.push(c.last())
        } else {
            pre
        }
    }
}

/// The probed entries that are files and not hidden, in probe order.
pub open spec fn vis_files(c: Seq<FileEntry>) -> Seq<FileEntry>
    decreases c.len(),
{
    if c.len() == 0 {
        Seq::<FileEntry>::empty()
    } else {
        let pre = vis_files(c.drop_last());
        if !hidden_name(c.last().name@) && !c.last().is_dir {
            pre.push(c.last())
        } else {
            pre
        }
    }
}

/// All probed entries the listing keeps: everything not hidden.
pub open spec fn visible_children(c: Seq<FileEntry>) -> Seq<FileEntry>
    decreases c.len(),
{
    if c.len() == 0 {
        Seq::<FileEntry>::empty()
    } else {
        let pre = visible_children(c.drop_last());
        if !hidden_name(c.last().name@) {
            pre.push(c.last())
        } else {
            pre
        }
    }
}

/// Case-insensitive name order on entries.
pub open spec fn name_le(a: FileEntry, b: FileEntry) -> bool {
    lex_le(lower_of(a.name@), lower_of(b.name@))
}

/// Sorted case-insensitively by name.
pub open spec fn sorted_names(s: Seq<FileEntry>) -> bool {
    forall|i: int, j: int| 0 <= i < j < s.len() ==> name_le(s[i], s[j])
}

/// What a listing body (after any parent entry) promises: directories are
/// never preceded by files, and within each partition names ascend
/// case-insensitively.
pub open spec fn listing_ordered(s: Seq<FileEntry>) -> bool {
    forall|i: int, j: int| 0 <= i < j < s.len() ==> {
        &&& (#[trigger] s[j]).is_dir ==> (#[trigger] s[i]).is_dir
        &&& (s[i].is_dir == s[j].is_dir ==> name_le(s[i], s[j]))
    }
}

/// The hidden-name filter splits into the directory and the file partition.
proof fn lemma_partition_multiset(c: Seq<FileEntry>)
    ensures
        visible_children(c).to_multiset()
            == vis_dirs(c).to_multiset().add(vis_files(c).to_multiset()),
    decreases c.len(),
{
    broadcast use vstd::seq_lib::group_to_multiset_ensures;

    if c.len() == 0 {
        assert(visible_children(c).to_multiset()
            =~= vis_dirs(c).to_multiset().add(vis_files(c).to_multiset()));
    } else {
        lemma_partition_multiset(c.drop_last());
        assert(visible_children(c).to_multiset()
            =~= vis_dirs(c).to_multiset().add(vis_files(c).to_multiset()));
    }
}

/// Case-insensitive comparison of two entries' names.
fn entry_le(a: &FileEntry, b: &FileEntry) -> (r: bool)
    ensures
        r == name_le(*a, *b),
{
    let la = lowercase(a.name.as_str());
    let lb = lowercase(b.name.as_str());
    str_le(la.as_str(), lb.as_str())
}

/// Stable insertion sort by case-insensitive name: the result is sorted and
/// holds exactly the given entries.
#[verifier::loop_isolation(false)]
fn sort_entries(v: &Vec<FileEntry>) -> (r: Vec<FileEntry>)
    ensures
        sorted_names(r@),
        r@.to_multiset() == v@.to_multiset(),
{
    broadcast use vstd::seq_lib::group_to_multiset_ensures;
    broadcast use vstd::multiset::group_multiset_axioms;

    let mut out: Vec<FileEntry> = Vec::new();
    let mut i: usize = 0;
    proof {
        assert(v@.take(0) =~= Seq::<FileEntry>::empty());
        assert(out@.to_multiset() =~= v@.take(0).to_multiset());
    }
    while i < v.len()
        invariant
            0 <= i <= v@.len(),
            sorted_names(out@),
            out@.to_multiset() == v@.take(i as int).to_multiset(),
        decreases v@.len() - i,
    {
        let ghost out0 = out@;
        let x = v[i].clone();
        let mut k: usize = 0;
        while k < out.len() && entry_le(&out[k], &x)
            invariant
                0 <= k <= out@.len(),
                out@ == out0,
                forall|m: int| 0 <= m < k ==> name_le(out@[m], x),
            decreases out@.len() - k,
        {
            k = k + 1;
        }
        proof {
            if k < out@.len() {
                lemma_lex_le_total(lower_of(out@[k as int].name@), lower_of(x.name@));
                assert(name_le(x, out@[k as int]));
            }
        }
        let ghost xe = x;
        out.insert(k, x);
        proof {
            let s = out@;
            let n = out0.len() as int;
            assert(s == out0.insert(k as int, xe));
            assert forall|a: int, b: int| 0 <= a < b < s.len() implies name_le(s[a], s[b]) by {
                if b < k {
                    assert(s[a] == out0[a] && s[b] == out0[b]);
                } else if b == k {
                    assert(s[a] == out0[a] && s[b] == xe);
                } else if a < k {
                    // a < k <= b - 1, so a < b - 1 and both sides sit in out0
                    assert(s[a] == out0[a] && s[b] == out0[b - 1]);
                } else if a == k {
                    assert(s[a] == xe && s[b] == out0[b - 1]);
                    assert(name_le(xe, out0[k as int]));
                    if b - 1 > k {
                        assert(name_le(out0[k as int], out0[b - 1]));
                        lemma_lex_le_trans(
                            lower_of(xe.name@),
                            lower_of(out0[k as int].name@),
                            lower_of(out0[b - 1].name@),
                        );
                    }
                } else {
                    assert(s[a] == out0[a - 1] && s[b] == out0[b - 1]);
                }
            }
            assert(sorted_names(s));

            let head = out0.take(k as int);
            let tail = out0.skip(k as int);
            assert(s =~= head + seq![xe] + tail);
            assert(Seq::<FileEntry>::empty().to_multiset() =~= Multiset::<FileEntry>::empty()) by {
                assert(forall|y: FileEntry| !Seq::<FileEntry>::empty().contains(y));
            }
            assert(seq![xe] =~= Seq::<FileEntry>::empty().push(xe));
            assert(seq![xe].to_multiset() =~= Multiset::<FileEntry>::empty().insert(xe));
            vstd::seq_lib::lemma_multiset_commutative(head + seq![xe], tail);
            vstd::seq_lib::lemma_multiset_commutative(head, seq![xe]);
            vstd::seq_lib::lemma_multiset_commutative(head, tail);
            assert(head + tail =~= out0);
            assert(s.to_multiset() =~= out0.to_multiset().insert(xe));
            assert(v@.take(i + 1).drop_last() =~= v@.take(i as int));
            assert(v@.take(i + 1) =~= v@.take(i as int).push(v@[i as int]));
            assert(s.to_multiset() =~= v@.take(i + 1).to_multiset());
        }
        i = i + 1;
    }
    proof {
        assert(v@.take(v@.len() as int) =~= v@);
    }
    out
}

/// The synthetic parent entry pointing at `parent`.
fn parent_entry(parent: String) -> (r: FileEntry)
    ensures
        r.name@ == seq!['.', '.'],
        r.path == parent,
        r.is_dir,
        r.is_accessible,
        !r.is_symlink,
        r.permissions is None,
        r.owner is None,
        r.group is None,
        r.uid is None,
        r.gid is None,
{
    proof {
        reveal_strlit("..");
        assert(".."@ =~= seq!['.', '.']);
    }
    FileEntry {
        name: String::from_str(".."),
        path: parent,
        is_dir: true,
        is_accessible: true,
        is_symlink: false,
        permissions: None,
        owner: None,
        group: None,
        uid: None,
        gid: None,
    }
}

/// How many leading entries of a listing are the synthetic parent entry:
/// one exactly when the path has a parent.
pub open spec fn parent_count(path: Seq<char>) -> int {
    if parent_dir(path) is Some {
        1int
    } else {
        0int
    }
}

/// What it means for `l` to be the listing of `path` with probed entries
/// `children`: the parent entry exactly when the path has a parent, then
/// directories before files, each partition sorted case-insensitively, the
/// body holding exactly the visible probed entries.
pub open spec fn is_listing_of(l: Seq<FileEntry>, path: Seq<char>, children: Seq<FileEntry>) -> bool {
    let body = l.skip(parent_count(path));
    &&& l.len() == parent_count(path) + vis_dirs(children).len() + vis_files(children).len()
    &&& (parent_dir(path) is Some ==> {
        &&& l.len() > 0
        &&& l[0].name@ == seq!['.', '.']
        &&& l[0].path@ == parent_dir(path).unwrap()
        &&& l[0].is_dir
        &&& l[0].is_accessible
        &&& !l[0].is_symlink
    })
    &&& listing_ordered(body)
    &&& body.to_multiset() == visible_children(children).to_multiset()
    &&& forall|i: int| 0 <= i < body.len() ==> !hidden_name((#[trigger] body[i]).name@)
}

/// Builds the listing for `path` from the probed entries of the directory:
/// the parent entry when the path has a parent, then the visible
/// directories, then the visible files, each partition sorted
/// case-insensitively by name.
#[verifier::loop_isolation(false)]
pub fn build_listing(path: &str, children: &Vec<FileEntry>) -> (r: Vec<FileEntry>)
    ensures
        is_listing_of(r@, path@, children@),
{
    broadcast use vstd::seq_lib::group_to_multiset_ensures;

    let mut dirs: Vec<FileEntry> = Vec::new();
    let mut files: Vec<FileEntry> = Vec::new();
    let mut i: usize = 0;
    while i < children.len()
        invariant
            0 <= i <= children@.len(),
            dirs@ == vis_dirs(children@.take(i as int)),
            files@ == vis_files(children@.take(i as int)),
        decreases children@.len() - i,
    {
        let e = &children[i];
        proof {
            reveal_strlit("..");
            assert(".."@ =~= seq!['.', '.']);
        }
        let name_len = e.name.as_str().unicode_len();
        let is_hidden = name_len > 0 && e.name.as_str().get_char(0) == '.'
            && !str_eq(e.name.as_str(), "..");
        if !is_hidden {
            if e.is_dir {
                dirs.push(e.clone());
            } else {
                files.push(e.clone());
            }
        }
        proof {
            assert(children@.take(i + 1).drop_last() =~= children@.take(i as int));
            assert(children@.take(i + 1).last() == children@[i as int]);
        }
        i = i + 1;
    }
    proof {
        assert(children@.take(children@.len() as int) =~= children@);
    }

    let sorted_dirs = sort_entries(&dirs);
    let sorted_files = sort_entries(&files);

    proof {
        assert forall|k: int| 0 <= k < vis_dirs(children@).len()
            implies (#[trigger] vis_dirs(children@)[k]).is_dir
                && !hidden_name(vis_dirs(children@)[k].name@) by {
            lemma_vis_dirs_are_dirs(children@, k);
        }
        assert forall|k: int| 0 <= k < vis_files(children@).len()
            implies !(#[trigger] vis_files(children@)[k]).is_dir
                && !hidden_name(vis_files(children@)[k].name@) by {
            lemma_vis_files_are_files(children@, k);
        }
        assert forall|k: int| 0 <= k < sorted_dirs@.len()
            implies (#[trigger] sorted_dirs@[k]).is_dir
                && !hidden_name(sorted_dirs@[k].name@) by {
            assert(sorted_dirs@.to_multiset().count(sorted_dirs@[k]) > 0);
            assert(vis_dirs(children@).contains(sorted_dirs@[k]));
        }
        assert forall|k: int| 0 <= k < sorted_files@.len()
            implies !(#[trigger] sorted_files@[k]).is_dir
                && !hidden_name(sorted_files@[k].name@) by {
            assert(sorted_files@.to_multiset().count(sorted_files@[k]) > 0);
            assert(vis_files(children@).contains(sorted_files@[k]));
        }
    }

    let mut out: Vec<FileEntry> = Vec::new();
    match parent_of(path) {
        Some(parent) => {
            out.push(parent_entry(parent));
        },
        None => {},
    }
    let ghost head = out@;
    proof {
        assert(head.len() == parent_count(path@));
    }

    let mut a: usize = 0;
    while a < sorted_dirs.len()
        invariant
            0 <= a <= sorted_dirs@.len(),
            out@ == head + sorted_dirs@.take(a as int),
        decreases sorted_dirs@.len() - a,
    {
        out.push(sorted_dirs[a].clone());
        proof {
            assert(out@ =~= head + sorted_dirs@.take(a + 1));
        }
        a = a + 1;
    }
    let mut b: usize = 0;
    while b < sorted_files.len()
        invariant
            0 <= b <= sorted_files@.len(),
            out@ == head + sorted_dirs@ + sorted_files@.take(b as int),
        decreases sorted_files@.len() - b,
    {
        out.push(sorted_files[b].clone());
        proof {
            assert(out@ =~= head + sorted_dirs@ + sorted_files@.take(b + 1));
        }
        b = b + 1;
    }
    proof {
        assert(sorted_dirs@.take(sorted_dirs@.len() as int) =~= sorted_dirs@);
        assert(sorted_files@.take(sorted_files@.len() as int) =~= sorted_files@);
        assert(out@ == head + sorted_dirs@ + sorted_files@);
        let pc = parent_count(path@);
        let body = out@.skip(pc);
        assert(body =~= sorted_dirs@ + sorted_files@);
        assert(listing_ordered(body)) by {
            assert forall|x: int, y: int| 0 <= x < y < body.len() implies
                ((#[trigger] body[y]).is_dir ==> (#[trigger] body[x]).is_dir)
                && (body[x].is_dir == body[y].is_dir ==> name_le(body[x], body[y])) by {
                let dl = sorted_dirs@.len() as int;
                if y < dl {
                    assert(body[x] == sorted_dirs@[x] && body[y] == sorted_dirs@[y]);
                } else if x >= dl {
                    assert(body[x] == sorted_files@[x - dl] && body[y] == sorted_files@[y - dl]);
                } else {
                    assert(body[x] == sorted_dirs@[x] && body[y] == sorted_files@[y - dl]);
                }
            }
        }
        lemma_partition_multiset(children@);
        vstd::seq_lib::lemma_multiset_commutative(sorted_dirs@, sorted_files@);
        assert(body.to_multiset() == visible_children(children@).to_multiset());
        assert(sorted_dirs@.to_multiset().len() == sorted_dirs@.len());
        assert(vis_dirs(children@).to_multiset().len() == vis_dirs(children@).len());
        assert(sorted_files@.to_multiset().len() == sorted_files@.len());
        assert(vis_files(children@).to_multiset().len() == vis_files(children@).len());
    }
    out
}

/// Every entry of the directory partition is a visible directory.
proof fn lemma_vis_dirs_are_dirs(c: Seq<FileEntry>, k: int)
    requires
        0 <= k < vis_dirs(c).len(),
    ensures
        vis_dirs(c)[k].is_dir,
        !hidden_name(vis_dirs(c)[k].name@),
    decreases c.len(),
{
    if c.len() > 0 {
        if k < vis_dirs(c.drop_last()).len() {
            lemma_vis_dirs_are_dirs(c.drop_last(), k);
        }
    }
}

/// Every entry of the file partition is a visible file.
proof fn lemma_vis_files_are_files(c: Seq<FileEntry>, k: int)
    requires
        0 <= k < vis_files(c).len(),
    ensures
        !vis_files(c)[k].is_dir,
        !hidden_name(vis_files(c)[k].name@),
    decreases c.len(),
{
    if c.len() > 0 {
        if k < vis_files(c.drop_last()).len() {
            lemma_vis_files_are_files(c.drop_last(), k);
        }
    }
}

/// The single-entry listing for a directory that could not be read: the
/// parent entry when there is one, then one inaccessible entry carrying the
/// error text as its name.
pub fn error_listing(path: &str, message: String) -> (r: Vec<FileEntry>)
    ensures
        r@.len() == parent_count(path@) + 1,
        parent_dir(path@) is Some ==> r@[0].name@ == seq!['.', '.']
            && r@[0].path@ == parent_dir(path@).unwrap() && r@[0].is_dir,
        ({
            let e = r@.last();
            &&& e.name == message
            &&& e.path@ == path@
            &&& !e.is_dir
            &&& !e.is_accessible
            &&& !e.is_symlink
            &&& e.permissions is None
        }),
{
    let mut out: Vec<FileEntry> = Vec::new();
    match parent_of(path) {
        Some(parent) => {
            out.push(parent_entry(parent));
        },
        None => {},
    }
    out.push(FileEntry {
        name: message,
        path: String::from_str(path),
        is_dir: false,
        is_accessible: false,
        is_symlink: false,
        permissions: None,
        owner: None,
        group: None,
        uid: None,
        gid: None,
    });
    out
}

} // verus!
