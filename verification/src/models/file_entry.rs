//! One filesystem object as shown in a listing, with verified renderings of
//! its display name, its permission bits and its ownership.

use vstd::prelude::*;

verus! {

/// An entry of a directory listing. Paths are held as plain absolute path
/// strings; permission bits are the raw platform mode integer.
#[derive(Debug)]
pub struct FileEntry {
    pub name: String,
    pub path: String,
    pub is_dir: bool,
    pub is_accessible: bool,
    pub is_symlink: bool,
    pub permissions: Option<u32>,
    pub owner: Option<String>,
    pub group: Option<String>,
    pub uid: Option<u32>,
    pub gid: Option<u32>,
}

impl Clone for FileEntry {
    fn clone(&self) -> (r: Self)
        ensures
            r == *self,
    {
        FileEntry {
            name: self.name.clone(),
            path: self.path.clone(),
            is_dir: self.is_dir,
            is_accessible: self.is_accessible,
            is_symlink: self.is_symlink,
            permissions: self.permissions,
            owner: match &self.owner {
                Some(o) => Some(o.clone()),
                None => None,
            },
            group: match &self.group {
                Some(g) => Some(g.clone()),
                None => None,
            },
            uid: self.uid,
            gid: self.gid,
        }
    }
}

/// The `rwx` triple for one octal digit (only the three low bits matter).
pub open spec fn rwx_of(d: int) -> Seq<char> {
    seq![
        if d % 8 >= 4 { 'r' } else { '-' },
        if d % 4 >= 2 { 'w' } else { '-' },
        if d % 2 == 1 { 'x' } else { '-' },
    ]
}

/// The nine-character symbolic form of a mode integer: owner, group, other.
pub open spec fn mode_chars(mode: int) -> Seq<char> {
    rwx_of(mode / 64) + rwx_of(mode / 8) + rwx_of(mode)
}

/// Appends the `rwx` triple for the octal digit `d` to `s`.
pub fn push_rwx(s: &mut String, d: u32)
    ensures
        final(s)@ == old(s)@ + rwx_of(d as int),
{
    proof {
        reveal_strlit("r");
        reveal_strlit("w");
        reveal_strlit("x");
        reveal_strlit("-");
    }
    if d % 8 >= 4 {
        s.append("r");
    } else {
        s.append("-");
    }
    if d % 4 >= 2 {
        s.append("w");
    } else {
        s.append("-");
    }
    if d % 2 == 1 {
        s.append("x");
    } else {
        s.append("-");
    }
    proof {
        assert(s@ =~= old(s)@ + rwx_of(d as int));
    }
}

/// Renders a mode integer as its nine-character symbolic permission string.
pub fn mode_to_rwx(mode: u32) -> (r: String)
    ensures
        r@ == mode_chars(mode as int),
{
    let mut s = String::new();
    push_rwx(&mut s, mode / 64);
    push_rwx(&mut s, mode / 8);
    push_rwx(&mut s, mode);
    proof {
        assert(s@ =~= mode_chars(mode as int));
    }
    s
}

/// The display form of an entry: an icon, a space, the name, and a trailing
/// slash for a plain directory.
pub open spec fn display_chars(e: &FileEntry) -> Seq<char> {
    let icon = if e.is_symlink {
        seq!['\u{1f517}']
    } else if e.is_dir {
        seq!['\u{1f4c1}']
    } else {
        seq!['\u{1f4c4}']
    };
    let suffix = if e.is_dir && !e.is_symlink {
        seq!['/']
    } else {
        Seq::<char>::empty()
    };
    icon + seq![' '] + e.name@ + suffix
}

/// The ownership line of an entry: owner and group separated by a space,
/// each replaced by `-` when unknown.
pub open spec fn ownership_chars(e: &FileEntry) -> Seq<char> {
    let o = match e.owner {
        Some(owner) => owner@,
        None => seq!['-'],
    };
    let g = match e.group {
        Some(group) => group@,
        None => seq!['-'],
    };
    o + seq![' '] + g
}

impl FileEntry {
    pub fn display_name(&self) -> (r: String)
        ensures
            r@ == display_chars(self),
    {
        proof {
            reveal_strlit("\u{1f517}");
            reveal_strlit("\u{1f4c1}");
            reveal_strlit("\u{1f4c4}");
            reveal_strlit(" ");
            reveal_strlit("/");
        }
        let mut s = String::new();
        if self.is_symlink {
            s.append("\u{1f517}");
        } else if self.is_dir {
            s.append("\u{1f4c1}");
        } else {
            s.append("\u{1f4c4}");
        }
        s.append(" ");
        s.append(self.name.as_str());
        if self.is_dir && !self.is_symlink {
            s.append("/");
        }
        proof {
            assert(s@ =~= display_chars(self));
        }
        s
    }

    pub fn permissions_string(&self) -> (r: String)
        ensures
            (match self.permissions {
                Some(mode) => r@ == mode_chars(mode as int),
                None => r@ == seq!['-', '-', '-', '-', '-', '-', '-', '-', '-'],
            }),
    {
        match self.permissions {
            Some(mode) => mode_to_rwx(mode),
            None => {
                proof {
                    reveal_strlit("---------");
                }
                let s = String::from_str("---------");
                proof {
                    assert(s@ =~= seq!['-', '-', '-', '-', '-', '-', '-', '-', '-']);
                }
                s
            },
        }
    }

    pub fn ownership_string(&self) -> (r: String)
        ensures
            r@ == ownership_chars(self),
    {
        proof {
            reveal_strlit("-");
            reveal_strlit(" ");
        }
        let mut s = String::new();
        match &self.owner {
            Some(o) => s.append(o.as_str()),
            None => s.append("-"),
        }
        s.append(" ");
        match &self.group {
            Some(g) => s.append(g.as_str()),
            None => s.append("-"),
        }
        proof {
            assert(s@ =~= ownership_chars(self));
        }
        s
    }
}

} // verus!
