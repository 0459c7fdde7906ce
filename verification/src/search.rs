//! Filename and content search over a directory listing, with regular
//! expression, case-sensitivity and content toggles and a cyclic result
//! cursor. Reading file contents is the embedder's job: it hands each
//! candidate file's lines to `search_in_file` and appends the matches.

use vstd::prelude::*;
use crate::models::file_entry::FileEntry;
use crate::text::{contains_seq, lower_of, lowercase, str_contains, str_eq, chars_of, ext_of, extension_of};
use crate::utils::patterns::{regex_ok, regex_match, regex_is_match};

verus! {

/// The fixed size cap for content search and previews: files above it are
/// skipped silently or refused a preview.
pub const CONTENT_SIZE_CAP: u64 = 10485760;

#[derive(Debug)]
pub struct SearchMode {
    pub query: String,
    pub use_regex: bool,
    pub case_sensitive: bool,
    pub search_in_contents: bool,
    pub results: Vec<SearchResult>,
    pub current_result_index: usize,
}

#[derive(Debug)]
pub struct SearchResult {
    pub entry: FileEntry,
    pub match_context: Option<String>,
    pub line_number: Option<usize>,
}

impl Clone for SearchResult {
    fn clone(&self) -> (r: Self)
        ensures
            r == *self,
    {
        SearchResult {
            entry: self.entry.clone(),
            match_context: match &self.match_context {
                Some(c) => Some(c.clone()),
                None => None,
            },
            line_number: self.line_number,
        }
    }
}

/// Whether a single name or line matches the query under the given toggles.
/// The regular-expression reading is meaningful only when the query compiles.
pub open spec fn query_hit(q: Seq<char>, use_regex: bool, case_sensitive: bool, t: Seq<char>) -> bool {
    if use_regex {
        regex_match(q, t)
    } else if case_sensitive {
        contains_seq(t, q)
    } else {
        contains_seq(lower_of(t), lower_of(q))
    }
}

/// The filename results for a listing, in listing order: one result per
/// matching entry, the synthetic parent entry excluded.
pub open spec fn filename_hits(q: Seq<char>, use_regex: bool, case_sensitive: bool, entries: Seq<FileEntry>) -> Seq<SearchResult>
    decreases entries.len(),
{
    if entries.len() == 0 {
        Seq::<SearchResult>::empty()
    } else {
        let pre = filename_hits(q, use_regex, case_sensitive, entries.drop_last());
        let e = entries.last();
        if e.name@ != seq!['.', '.'] && query_hit(q, use_regex, case_sensitive, e.name@) {
            pre.push(SearchResult { entry: e, match_context: None::<String>, line_number: None::<usize> })
        } else {
            pre
        }
    }
}

/// What a search run leaves in `results`: nothing for an empty query or a
/// regular expression that does not compile, else the filename hits.
pub open spec fn search_results_spec(q: Seq<char>, use_regex: bool, case_sensitive: bool, entries: Seq<FileEntry>) -> Seq<SearchResult> {
    if q.len() == 0 {
        Seq::<SearchResult>::empty()
    } else if use_regex && !regex_ok(q) {
        Seq::<SearchResult>::empty()
    } else {
        filename_hits(q, use_regex, case_sensitive, entries)
    }
}

/// A matched line shortened for display: at most 100 characters, with an
/// ellipsis marker when something was cut.
pub open spec fn truncated_line(line: Seq<char>) -> Seq<char> {
    if line.len() > 100 {
        line.take(100) + seq!['.', '.', '.']
    } else {
        line
    }
}

/// The content matches of one file: the first five matching lines, each with
/// its 1-based line number and its truncated text.
pub open spec fn file_hits(q: Seq<char>, use_regex: bool, case_sensitive: bool, lines: Seq<Seq<char>>) -> Seq<(int, Seq<char>)>
    decreases lines.len(),
{
    if lines.len() == 0 {
        Seq::<(int, Seq<char>)>::empty()
    } else {
        let pre = file_hits(q, use_regex, case_sensitive, lines.drop_last());
        if pre.len() < 5 && query_hit(q, use_regex, case_sensitive, lines.last()) {
            pre.push((lines.len() as int, truncated_line(lines.last())))
        } else {
            pre
        }
    }
}

/// No file yields more than five content matches.
pub proof fn lemma_file_hits_capped(q: Seq<char>, use_regex: bool, case_sensitive: bool, lines: Seq<Seq<char>>)
    ensures
        file_hits(q, use_regex, case_sensitive, lines).len() <= 5,
    decreases lines.len(),
{
    if lines.len() > 0 {
        lemma_file_hits_capped(q, use_regex, case_sensitive, lines.drop_last());
    }
}

/// Once five matches stand, later lines change nothing.
proof fn lemma_file_hits_stable(q: Seq<char>, use_regex: bool, case_sensitive: bool, lines: Seq<Seq<char>>, i: int)
    requires
        0 <= i <= lines.len(),
        file_hits(q, use_regex, case_sensitive, lines.take(i)).len() >= 5,
    ensures
        file_hits(q, use_regex, case_sensitive, lines) == file_hits(q, use_regex, case_sensitive, lines.take(i)),
    decreases lines.len() - i,
{
    if i < lines.len() {
        assert(lines.take(i + 1).drop_last() =~= lines.take(i));
        lemma_file_hits_stable(q, use_regex, case_sensitive, lines, i + 1);
        assert(lines.take(lines.len() as int) =~= lines);
    } else {
        assert(lines.take(lines.len() as int) =~= lines);
    }
}

impl SearchMode {
    /// A fresh search session: empty query, all toggles off, no results.
    pub fn new() -> (s: Self)
        ensures
            s.query@.len() == 0,
            s.use_regex == false,
            s.case_sensitive == false,
            s.search_in_contents == false,
            s.results@.len() == 0,
            s.current_result_index == 0,
    {
        SearchMode {
            query: String::new(),
            use_regex: false,
            case_sensitive: false,
            search_in_contents: false,
            results: Vec::new(),
            current_result_index: 0,
        }
    }

    /// Runs the filename search over a listing: clears previous results,
    /// resets the cursor, and collects one result per matching entry. An
    /// empty query, or an invalid regular expression in regex mode, leaves
    /// the result list empty.
    pub fn search(&mut self, entries: &Vec<FileEntry>)
        ensures
            final(self).query == old(self).query,
            final(self).use_regex == old(self).use_regex,
            final(self).case_sensitive == old(self).case_sensitive,
            final(self).search_in_contents == old(self).search_in_contents,
            final(self).current_result_index == 0,
            final(self).results@ == search_results_spec(old(self).query@, old(self).use_regex, old(self).case_sensitive, entries@),
    {
        self.results = Vec::new();
        self.current_result_index = 0;

        if self.query.as_str().unicode_len() == 0 {
            return;
        }

        let qchars = chars_of(self.query.as_str());
        if self.use_regex {
            if regex_is_match(&qchars, "").is_none() {
                return;
            }
        }
        let lower_query = lowercase(self.query.as_str());

        let ghost q = self.query@;
        let ghost ur = self.use_regex;
        let ghost cs = self.case_sensitive;

        let mut i: usize = 0;
        while i < entries.len()
            invariant
                0 <= i <= entries@.len(),
                self.query == old(self).query,
                self.query@ == q,
                self.use_regex == ur,
                self.case_sensitive == cs,
                self.search_in_contents == old(self).search_in_contents,
                self.current_result_index == 0,
                qchars@ == q,
                q.len() > 0,
                ur ==> regex_ok(q),
                lower_query@ == lower_of(q),
                self.results@ == filename_hits(q, ur, cs, entries@.take(i as int)),
            decreases entries@.len() - i,
        {
            let entry = &entries[i];
            proof {
                reveal_strlit("..");
                assert(".."@ =~= seq!['.', '.']);
            }
            if !str_eq(entry.name.as_str(), "..") {
                let hit: bool;
                if self.use_regex {
                    hit = match regex_is_match(&qchars, entry.name.as_str()) {
                        Some(b) => b,
                        None => false,
                    };
                } else if self.case_sensitive {
                    hit = str_contains(entry.name.as_str(), self.query.as_str());
                } else {
                    let lower_name = lowercase(entry.name.as_str());
                    hit = str_contains(lower_name.as_str(), lower_query.as_str());
                }
                if hit {
                    self.results.push(SearchResult {
                        entry: entry.clone(),
                        match_context: None,
                        line_number: None,
                    });
                }
            }
            proof {
                assert(entries@.take(i + 1).drop_last() =~= entries@.take(i as int));
                assert(entries@.take(i + 1).last() == entries@[i as int]);
                assert(self.results@ =~= filename_hits(q, ur, cs, entries@.take(i + 1)));
            }
            i = i + 1;
        }
        proof {
            assert(entries@.take(entries@.len() as int) =~= entries@);
        }
    }

    /// The content matches of one file, given its lines: the first five
    /// matching lines with 1-based numbers and display truncation. The
    /// caller wraps them into results for the file's entry.
    pub fn search_in_file(&self, lines: &Vec<String>) -> (r: Vec<(usize, String)>)
        requires
            lines@.len() < usize::MAX,
        ensures
            (if self.use_regex && !regex_ok(self.query@) {
                r@.len() == 0
            } else {
                r@.map_values(|p: (usize, String)| (p.0 as int, p.1@))
                    == file_hits(self.query@, self.use_regex, self.case_sensitive, lines@.map_values(|l: String| l@))
            }),
    {
        let ghost lseq = lines@.map_values(|l: String| l@);
        let mut out: Vec<(usize, String)> = Vec::new();
        let qchars = chars_of(self.query.as_str());
        if self.use_regex {
            if regex_is_match(&qchars, "").is_none() {
                return out;
            }
        }
        let lower_query = lowercase(self.query.as_str());

        let mut i: usize = 0;
        while i < lines.len() && out.len() < 5
            invariant
                0 <= i <= lines@.len(),
                lines@.len() < usize::MAX,
                lseq == lines@.map_values(|l: String| l@),
                qchars@ == self.query@,
                lower_query@ == lower_of(self.query@),
                self.use_regex ==> regex_ok(self.query@),
                out@.map_values(|p: (usize, String)| (p.0 as int, p.1@))
                    == file_hits(self.query@, self.use_regex, self.case_sensitive, lseq.take(i as int)),
            decreases lines@.len() - i,
        {
            let ghost out0 = out@;
            let ghost pre = file_hits(self.query@, self.use_regex, self.case_sensitive, lseq.take(i as int));
            let line = &lines[i];
            proof {
                assert(lseq[i as int] == line@);
            }
            let hit: bool;
            if self.use_regex {
                hit = match regex_is_match(&qchars, line.as_str()) {
                    Some(b) => b,
                    None => false,
                };
            } else if self.case_sensitive {
                hit = str_contains(line.as_str(), self.query.as_str());
            } else {
                let lower_line = lowercase(line.as_str());
                hit = str_contains(lower_line.as_str(), lower_query.as_str());
            }
            proof {
                assert(hit == query_hit(self.query@, self.use_regex, self.case_sensitive, line@));
            }
            if hit {
                let context: String;
                if line.as_str().unicode_len() > 100 {
                    let mut c = String::from_str(line.as_str().substring_char(0, 100));
                    proof {
                        reveal_strlit("...");
                    }
                    c.append("...");
                    proof {
                        assert(c@ =~= truncated_line(line@));
                    }
                    context = c;
                } else {
                    context = line.clone();
                }
                out.push((i + 1, context));
            }
            proof {
                assert(lseq.take(i + 1).drop_last() =~= lseq.take(i as int));
                assert(lseq.take(i + 1).last() == line@);
                let hits2 = file_hits(self.query@, self.use_regex, self.case_sensitive, lseq.take(i + 1));
                if hit {
                    assert(hits2 == pre.push((i + 1 as int, truncated_line(line@))));
                } else {
                    assert(hits2 == pre);
                }
                assert(out@.map_values(|p: (usize, String)| (p.0 as int, p.1@)) =~= hits2);
            }
            i = i + 1;
        }
        proof {
            if i < lines@.len() {
                lemma_file_hits_stable(self.query@, self.use_regex, self.case_sensitive, lseq, i as int);
            } else {
                assert(lseq.take(i as int) =~= lseq);
            }
        }
        out
    }

    /// Whether a file of this name is worth a content scan: a known text
    /// extension, or one of a few conventional extension-less names.
    pub fn is_text_file(&self, name: &str) -> (r: bool)
        ensures
            r == is_text_name(name@),
    {
        match extension_of(name) {
            Some(e) => {
                let le = lowercase(e.as_str());
                let s = le.as_str();
                str_eq(s, "txt") || str_eq(s, "md") || str_eq(s, "rs") || str_eq(s, "toml")
                    || str_eq(s, "yaml") || str_eq(s, "yml") || str_eq(s, "json") || str_eq(s, "js")
                    || str_eq(s, "ts") || str_eq(s, "py") || str_eq(s, "sh") || str_eq(s, "bash")
                    || str_eq(s, "c") || str_eq(s, "cpp") || str_eq(s, "h") || str_eq(s, "hpp")
                    || str_eq(s, "java") || str_eq(s, "go") || str_eq(s, "rb") || str_eq(s, "php")
                    || str_eq(s, "html") || str_eq(s, "css") || str_eq(s, "xml") || str_eq(s, "conf")
                    || str_eq(s, "cfg") || str_eq(s, "ini") || str_eq(s, "log")
            },
            None => {
                let lf = lowercase(name);
                let s = lf.as_str();
                str_eq(s, "readme") || str_eq(s, "license") || str_eq(s, "makefile")
                    || str_eq(s, "dockerfile") || str_eq(s, "changelog")
            },
        }
    }

    /// Moves the cursor one result forward, wrapping to the start.
    pub fn next_result(&mut self)
        requires
            old(self).results@.len() == 0 || old(self).current_result_index < old(self).results@.len(),
        ensures
            *final(self) == (SearchMode {
                current_result_index: if old(self).results@.len() == 0 {
                    old(self).current_result_index
                } else {
                    (((old(self).current_result_index + 1) as int % old(self).results@.len() as int) as usize)
                },
                ..*old(self)
            }),
    {
        if self.results.len() > 0 {
            self.current_result_index = (self.current_result_index + 1) % self.results.len();
        }
    }

    /// Moves the cursor one result backward, wrapping to the end.
    pub fn previous_result(&mut self)
        ensures
            *final(self) == (SearchMode {
                current_result_index: if old(self).results@.len() == 0 {
                    old(self).current_result_index
                } else if old(self).current_result_index == 0 {
                    (old(self).results@.len() - 1) as usize
                } else {
                    (old(self).current_result_index - 1) as usize
                },
                ..*old(self)
            }),
    {
        if self.results.len() > 0 {
            if self.current_result_index == 0 {
                self.current_result_index = self.results.len() - 1;
            } else {
                self.current_result_index = self.current_result_index - 1;
            }
        }
    }

    /// Flips regex mode; stale results are discarded.
    pub fn toggle_regex(&mut self)
        ensures
            final(self).use_regex == !old(self).use_regex,
            final(self).case_sensitive == old(self).case_sensitive,
            final(self).search_in_contents == old(self).search_in_contents,
            final(self).query == old(self).query,
            final(self).results@.len() == 0,
            final(self).current_result_index == old(self).current_result_index,
    {
        self.use_regex = !self.use_regex;
        self.results = Vec::new();
    }

    /// Flips case sensitivity; stale results are discarded.
    pub fn toggle_case_sensitive(&mut self)
        ensures
            final(self).case_sensitive == !old(self).case_sensitive,
            final(self).use_regex == old(self).use_regex,
            final(self).search_in_contents == old(self).search_in_contents,
            final(self).query == old(self).query,
            final(self).results@.len() == 0,
            final(self).current_result_index == old(self).current_result_index,
    {
        self.case_sensitive = !self.case_sensitive;
        self.results = Vec::new();
    }

    /// Flips content search; stale results are discarded.
    pub fn toggle_search_contents(&mut self)
        ensures
            final(self).search_in_contents == !old(self).search_in_contents,
            final(self).use_regex == old(self).use_regex,
            final(self).case_sensitive == old(self).case_sensitive,
            final(self).query == old(self).query,
            final(self).results@.len() == 0,
            final(self).current_result_index == old(self).current_result_index,
    {
        self.search_in_contents = !self.search_in_contents;
        self.results = Vec::new();
    }

    /// The result under the cursor, if any.
    pub fn get_current_result(&self) -> (r: Option<&SearchResult>)
        ensures
            (match r {
                Some(res) => self.current_result_index < self.results@.len()
                    && *res == self.results@[self.current_result_index as int],
                None => self.current_result_index >= self.results@.len(),
            }),
    {
        if self.current_result_index < self.results.len() {
            Some(&self.results[self.current_result_index])
        } else {
            None
        }
    }

    /// Empties the query and the results and resets the cursor.
    pub fn clear(&mut self)
        ensures
            final(self).query@.len() == 0,
            final(self).results@.len() == 0,
            final(self).current_result_index == 0,
            final(self).use_regex == old(self).use_regex,
            final(self).case_sensitive == old(self).case_sensitive,
            final(self).search_in_contents == old(self).search_in_contents,
    {
        self.query = String::new();
        self.results = Vec::new();
        self.current_result_index = 0;
    }
}

/// The extension allow-list and the conventional extension-less names that
/// mark a file as text for content search.
pub open spec fn is_text_name(name: Seq<char>) -> bool {
    match ext_of(name) {
        Some(e) => {
            let le = lower_of(e);
            ||| le == "txt"@ ||| le == "md"@ ||| le == "rs"@ ||| le == "toml"@
            ||| le == "yaml"@ ||| le == "yml"@ ||| le == "json"@ ||| le == "js"@
            ||| le == "ts"@ ||| le == "py"@ ||| le == "sh"@ ||| le == "bash"@
            ||| le == "c"@ ||| le == "cpp"@ ||| le == "h"@ ||| le == "hpp"@
            ||| le == "java"@ ||| le == "go"@ ||| le == "rb"@ ||| le == "php"@
            ||| le == "html"@ ||| le == "css"@ ||| le == "xml"@ ||| le == "conf"@
            ||| le == "cfg"@ ||| le == "ini"@ ||| le == "log"@
        },
        None => {
            let lf = lower_of(name);
            ||| lf == "readme"@ ||| lf == "license"@ ||| lf == "makefile"@
            ||| lf == "dockerfile"@ ||| lf == "changelog"@
        },
    }
}

} // verus!
