//! Pattern matching against names. A pattern containing `*` is treated as an
//! anchored glob; otherwise a pattern that compiles as a regular expression
//! is searched for anywhere in the text; otherwise matching falls back to
//! plain substring containment. The empty pattern matches nothing.

use vstd::prelude::*;
use crate::text::{contains_seq, str_contains, chars_of};

verus! {

/// Whether `regex::Regex::new` accepts this pattern: a function of the
/// pattern's characters alone.
pub uninterp spec fn regex_ok(p: Seq<char>) -> bool;

/// What `regex::Regex::is_match` answers for a pattern that compiles and a
/// text: a function of the two character sequences alone.
pub uninterp spec fn regex_match(p: Seq<char>, t: Seq<char>) -> bool;

/// Relies on regex::Regex::new and regex::Regex::is_match: whether the
/// pattern compiles, and whether the compiled pattern matches anywhere in
/// `text`, depend on the pattern's and the text's characters alone.
#[verifier::external_body]
pub(crate) fn regex_is_match(pattern: &Vec<char>, text: &str) -> (r: Option<bool>)
    ensures
        r == (if regex_ok(pattern@) {
            Some(regex_match(pattern@, text@))
        } else {
            None::<bool>
        }),
{
    let p: String = pattern.iter().collect();
    match regex::Regex::new(&p) {
        Ok(re) => Some(re.is_match(text)),
        Err(_) => None,
    }
}

/// The regular-expression fragment a glob pattern character stands for:
/// `.` is escaped, `*` matches any sequence, `?` matches any one character.
pub open spec fn glob_piece(c: char) -> Seq<char> {
    if c == '.' {
        seq!['\\', '.']
    } else if c == '*' {
        seq!['.', '*']
    } else if c == '?' {
        seq!['.']
    } else {
        seq![c]
    }
}

/// The whole glob pattern translated to a regular expression, unanchored.
pub open spec fn glob_translated(p: Seq<char>) -> Seq<char>
    decreases p.len(),
{
    if p.len() == 0 {
        Seq::<char>::empty()
    } else {
        glob_translated(p.drop_last()) + glob_piece(p.last())
    }
}

/// The glob pattern translated and anchored at both ends.
pub open spec fn glob_anchored(p: Seq<char>) -> Seq<char> {
    seq!['^'] + glob_translated(p) + seq!['$']
}

/// What `match_pattern` answers, by the classification order of the three
/// pattern kinds; `first wins` among glob, regex, substring.
pub open spec fn match_pattern_spec(p: Seq<char>, t: Seq<char>) -> bool {
    if p.len() == 0 {
        false
    } else if p.contains('*') && regex_ok(glob_anchored(p)) {
        regex_match(glob_anchored(p), t)
    } else if regex_ok(p) {
        regex_match(p, t)
    } else {
        contains_seq(t, p)
    }
}

/// Builds the anchored regular expression for a glob pattern.
fn translate_glob(pat: &Vec<char>) -> (r: Vec<char>)
    ensures
        r@ == glob_anchored(pat@),
{
    let mut out: Vec<char> = Vec::new();
    out.push('^');
    let mut i: usize = 0;
    while i < pat.len()
        invariant
            0 <= i <= pat@.len(),
            out@ == seq!['^'] + glob_translated(pat@.take(i as int)),
        decreases pat@.len() - i,
    {
        let c = pat[i];
        if c == '.' {
            out.push('\\');
            out.push('.');
        } else if c == '*' {
            out.push('.');
            out.push('*');
        } else if c == '?' {
            out.push('.');
        } else {
            out.push(c);
        }
        proof {
            assert(pat@.take(i + 1).drop_last() =~= pat@.take(i as int));
            assert(pat@.take(i + 1).last() == pat@[i as int]);
            assert(out@ =~= seq!['^'] + glob_translated(pat@.take(i + 1)));
        }
        i = i + 1;
    }
    out.push('$');
    proof {
        assert(pat@.take(pat@.len() as int) =~= pat@);
        assert(out@ =~= glob_anchored(pat@));
    }
    out
}

/// Matches `pattern` against `text`: anchored glob when the pattern holds a
/// `*`, else unanchored regular-expression search when the pattern compiles,
/// else substring containment. The empty pattern matches nothing.
pub fn match_pattern(pattern: &str, text: &str) -> (r: bool)
    ensures
        r == match_pattern_spec(pattern@, text@),
{
    if pattern.unicode_len() == 0 {
        return false;
    }
    let pat = chars_of(pattern);
    let mut has_star: bool = false;
    let mut i: usize = 0;
    while i < pat.len()
        invariant
            0 <= i <= pat@.len(),
            pat@ == pattern@,
            has_star == (exists|k: int| 0 <= k < i && pat@[k] == '*'),
        decreases pat@.len() - i,
    {
        if pat[i] == '*' {
            has_star = true;
        }
        i = i + 1;
    }
    if has_star {
        let anchored = translate_glob(&pat);
        if let Some(b) = regex_is_match(&anchored, text) {
            return b;
        }
    }
    if let Some(b) = regex_is_match(&pat, text) {
        return b;
    }
    str_contains(text, pattern)
}

} // verus!
