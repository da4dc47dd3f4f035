//! Line search: find the lines of a text that contain a query, either
//! literally or up to case.
//!
//! The text is split into lines exactly as `str::lines` does it — lines end
//! at a newline, a carriage return immediately before a newline is stripped,
//! and a final line without a newline keeps whatever it ends with. A line
//! matches when the query occurs in it as a contiguous run of characters;
//! the case-insensitive variant compares the lowercase forms instead.

use vstd::prelude::*;
use vstd::string::{StrSliceExecFns, StringExecFns};

verus! {

/// Index of the first newline in `s`, or `s.len()` when there is none.
pub open spec fn first_nl(s: Seq<char>) -> int
    decreases s.len(),
{
    if s.len() == 0 {
        0
    } else if s[0] == '\n' {
        0
    } else {
        1 + first_nl(s.subrange(1, s.len() as int))
    }
}

/// What `first_nl` finds: it is in bounds, it points at a newline when
/// there is one, and nothing before it is a newline.
pub proof fn lemma_first_nl(s: Seq<char>)
    ensures
        0 <= first_nl(s) <= s.len(),
        first_nl(s) < s.len() ==> s[first_nl(s)] == '\n',
        forall|k: int| 0 <= k < first_nl(s) ==> s[k] != '\n',
    decreases s.len(),
{
    if s.len() == 0 {
    } else if s[0] == '\n' {
    } else {
        let tail = s.subrange(1, s.len() as int);
        lemma_first_nl(tail);
        assert forall|k: int| 0 <= k < first_nl(s) implies s[k] != '\n' by {
            if k > 0 {
                assert(tail[k - 1] == s[k]);
            }
        }
    }
}

/// `first_nl` is the index of a newline preceded by none.
pub proof fn lemma_first_nl_found(s: Seq<char>, i: int)
    requires
        0 <= i < s.len(),
        s[i] == '\n',
        forall|k: int| 0 <= k < i ==> s[k] != '\n',
    ensures
        first_nl(s) == i,
    decreases s.len(),
{
    if i > 0 {
        let tail = s.subrange(1, s.len() as int);
        assert(forall|k: int| 0 <= k < i - 1 ==> tail[k] == s[k + 1]);
        lemma_first_nl_found(tail, i - 1);
    }
}

/// When no character is a newline, `first_nl` is the length.
pub proof fn lemma_first_nl_none(s: Seq<char>)
    requires
        forall|k: int| 0 <= k < s.len() ==> s[k] != '\n',
    ensures
        first_nl(s) == s.len(),
    decreases s.len(),
{
    if s.len() > 0 {
        let tail = s.subrange(1, s.len() as int);
        assert(forall|k: int| 0 <= k < tail.len() ==> tail[k] == s[k + 1]);
        lemma_first_nl_none(tail);
    }
}

/// Drop the carriage return a line ending stripped from `\r\n`.
pub open spec fn strip_cr(line: Seq<char>) -> Seq<char> {
    if line.len() > 0 && line.last() == '\r' {
        line.drop_last()
    } else {
        line
    }
}

/// The lines of `s`, as `str::lines` yields them: split at each newline,
/// with a carriage return just before the newline stripped; a final
/// newline ends the last line rather than opening an empty one.
pub open spec fn spec_lines(s: Seq<char>) -> Seq<Seq<char>>
    decreases s.len(),
    via spec_lines_decreases
{
    if s.len() == 0 {
        Seq::empty()
    } else {
        let i = first_nl(s);
        if i == s.len() {
            seq![s]
        } else {
            seq![strip_cr(s.take(i))] + spec_lines(s.subrange(i + 1, s.len() as int))
        }
    }
}

#[via_fn]
proof fn spec_lines_decreases(s: Seq<char>) {
    lemma_first_nl(s);
}

/// Whether `needle` occurs in `hay` as a contiguous run.
pub open spec fn contains_sub(hay: Seq<char>, needle: Seq<char>) -> bool {
    exists|k: int|
        0 <= k <= hay.len() - needle.len() && #[trigger] hay.subrange(
            k,
            k + needle.len() as int,
        ) == needle
}

/// Index of the first newline in `s`, or its character length if none.
pub fn find_first_newline(s: &str) -> (i: usize)
    ensures
        i == first_nl(s@),
{
    let len = s.unicode_len();
    let mut i: usize = 0;
    while i < len
        invariant
            i <= len,
            len == s@.len(),
            forall|k: int| 0 <= k < i ==> s@[k] != '\n',
        decreases len - i,
    {
        if s.get_char(i) == '\n' {
            proof {
                lemma_first_nl_found(s@, i as int);
            }
            return i;
        }
        i = i + 1;
    }
    proof {
        lemma_first_nl_none(s@);
    }
    len
}

/// Split a text into its lines.
pub fn split_lines(s: &str) -> (lines: Vec<String>)
    ensures
        lines@.map_values(|l: String| l@) == spec_lines(s@),
    decreases s@.len(),
{
    let len = s.unicode_len();
    if len == 0 {
        let lines: Vec<String> = Vec::new();
        proof {
            assert(lines@.map_values(|l: String| l@) =~= spec_lines(s@));
        }
        return lines;
    }
    let i = find_first_newline(s);
    proof {
        lemma_first_nl(s@);
    }
    if i == len {
        let mut lines: Vec<String> = Vec::new();
        lines.push(s.to_owned());
        proof {
            assert(lines@.map_values(|l: String| l@) =~= spec_lines(s@));
        }
        lines
    } else {
        let end = if i > 0 && s.get_char(i - 1) == '\r' {
            i - 1
        } else {
            i
        };
        let line = s.substring_char(0, end);
        proof {
            assert(line@ =~= strip_cr(s@.take(i as int)));
        }
        let rest = s.substring_char(i + 1, len);
        let mut lines: Vec<String> = Vec::new();
        lines.push(line.to_owned());
        let mut tail_lines = split_lines(rest);
        lines.append(&mut tail_lines);
        proof {
            assert(lines@.map_values(|l: String| l@) =~= spec_lines(s@));
        }
        lines
    }
}

/// Whether `needle` occurs in `hay` as a contiguous run of characters.
pub fn contains_str(hay: &str, needle: &str) -> (r: bool)
    ensures
        r == contains_sub(hay@, needle@),
{
    let hay_len = hay.unicode_len();
    let needle_len = needle.unicode_len();
    if needle_len > hay_len {
        return false;
    }
    if needle_len == 0 {
        proof {
            assert(hay@.subrange(0, 0 + needle@.len() as int) =~= needle@);
        }
        return true;
    }
    let mut start: usize = 0;
    while start <= hay_len - needle_len
        invariant
            1 <= needle_len <= hay_len,
            hay_len == hay@.len(),
            needle_len == needle@.len(),
            start <= hay_len - needle_len + 1,
            forall|k: int|
                0 <= k < start ==> #[trigger] hay@.subrange(k, k + needle@.len() as int)
                    != needle@,
        decreases hay_len - needle_len + 1 - start,
    {
        let mut j: usize = 0;
        let mut matched: bool = true;
        while j < needle_len
            invariant
                j <= needle_len,
                start + needle_len <= hay_len,
                hay_len == hay@.len(),
                needle_len == needle@.len(),
                matched ==> forall|t: int| 0 <= t < j ==> hay@[start + t] == needle@[t],
                !matched ==> hay@.subrange(start as int, start + needle@.len() as int)
                    != needle@,
            decreases needle_len - j,
        {
            if hay.get_char(start + j) != needle.get_char(j) {
                proof {
                    assert(hay@.subrange(start as int, start + needle@.len() as int)[j as int]
                        == hay@[start + j]);
                }
                matched = false;
            }
            j = j + 1;
        }
        if matched {
            proof {
                assert(hay@.subrange(start as int, start + needle@.len() as int) =~= needle@);
            }
            return true;
        }
        start = start + 1;
    }
    return false;
}

/// The lines among `lines` in which `query` occurs, in order.
pub open spec fn matching_lines(lines: Seq<Seq<char>>, query: Seq<char>) -> Seq<Seq<char>>
    decreases lines.len(),
{
    if lines.len() == 0 {
        Seq::empty()
    } else {
        let init = matching_lines(lines.drop_last(), query);
        if contains_sub(lines.last(), query) {
            init.push(lines.last())
        } else {
            init
        }
    }
}

/// The lines of `contents` that contain `query`.
#[verifier::loop_isolation(false)]
pub fn search(query: &str, contents: &str) -> (results: Vec<String>)
    ensures
        results@.map_values(|l: String| l@) == matching_lines(spec_lines(contents@), query@),
{
    let lines = split_lines(contents);
    let ghost line_views = lines@.map_values(|l: String| l@);
    let mut results: Vec<String> = Vec::new();
    let mut i: usize = 0;
    while i < lines.len()
        invariant
            i <= lines@.len(),
            results@.map_values(|l: String| l@) == matching_lines(line_views.take(i as int), query@),
        decreases lines@.len() - i,
    {
        proof {
            assert(line_views.take(i + 1).drop_last() =~= line_views.take(i as int));
            assert(line_views.take(i + 1).last() == lines@[i as int]@);
        }
        if contains_str(lines[i].as_str(), query) {
            results.push(lines[i].clone());
        }
        i = i + 1;
        proof {
            assert(results@.map_values(|l: String| l@) =~= matching_lines(
                line_views.take(i as int),
                query@,
            ));
        }
    }
    proof {
        assert(line_views.take(lines@.len() as int) =~= line_views);
    }
    results
}

/// What `str::to_lowercase` returns for a string with these characters.
pub uninterp spec fn lower_of(s: Seq<char>) -> Seq<char>;

/// Relies on str::to_lowercase: the lowercase form of a string is a
/// function of its characters alone.
#[verifier::external_body]
fn to_lowercase(s: &str) -> (r: String)
    ensures
        r@ == lower_of(s@),
{
    s.to_lowercase()
}

/// The lines among `lines` whose lowercase form contains the lowercase
/// form of `query`, in order.
pub open spec fn ci_matching_lines(lines: Seq<Seq<char>>, query: Seq<char>) -> Seq<Seq<char>>
    decreases lines.len(),
{
    if lines.len() == 0 {
        Seq::empty()
    } else {
        let init = ci_matching_lines(lines.drop_last(), query);
        if contains_sub(lower_of(lines.last()), lower_of(query)) {
            init.push(lines.last())
        } else {
            init
        }
    }
}

/// The lines of `contents` that contain `query` up to case: both are
/// lowercased before the comparison, and the matching lines are returned
/// as they were written.
#[verifier::loop_isolation(false)]
pub fn search_case_insensitive(query: &str, contents: &str) -> (results: Vec<String>)
    ensures
        results@.map_values(|l: String| l@) == ci_matching_lines(spec_lines(contents@), query@),
{
    let lower_query = to_lowercase(query);
    let lines = split_lines(contents);
    let ghost line_views = lines@.map_values(|l: String| l@);
    let mut results: Vec<String> = Vec::new();
    let mut i: usize = 0;
    while i < lines.len()
        invariant
            i <= lines@.len(),
            results@.map_values(|l: String| l@) == ci_matching_lines(
                line_views.take(i as int),
                query@,
            ),
        decreases lines@.len() - i,
    {
        proof {
            assert(line_views.take(i + 1).drop_last() =~= line_views.take(i as int));
            assert(line_views.take(i + 1).last() == lines@[i as int]@);
        }
        let lower_line = to_lowercase(lines[i].as_str());
        if contains_str(lower_line.as_str(), lower_query.as_str()) {
            results.push(lines[i].clone());
        }
        i = i + 1;
        proof {
            assert(results@.map_values(|l: String| l@) =~= ci_matching_lines(
                line_views.take(i as int),
                query@,
            ));
        }
    }
    proof {
        assert(line_views.take(lines@.len() as int) =~= line_views);
    }
    results
}

/// The search configuration a command line asks for: the query, the file
/// to search, and whether case matters. Whether case matters comes from
/// the environment, which the caller reads and passes in.
#[derive(Debug, Clone, PartialEq)]
pub struct Config {
    query: String,
    file_path: String,
    case_sensitive: bool,
}

impl Config {
    /// The query, as seen by specifications.
    pub closed spec fn spec_query(self) -> Seq<char> {
        self.query@
    }

    /// The file path, as seen by specifications.
    pub closed spec fn spec_file_path(self) -> Seq<char> {
        self.file_path@
    }

    /// Whether case matters, as seen by specifications.
    pub closed spec fn spec_case_sensitive(self) -> bool {
        self.case_sensitive
    }

    /// Read a configuration from the arguments: the word to search for and
    /// the file to search, after the program name. Fewer than three
    /// arguments are refused.
    pub fn new(args: &Vec<String>, case_sensitive: bool) -> (result: Result<Config, &'static str>)
        ensures
            match result {
                Ok(config) => {
                    &&& args@.len() >= 3
                    &&& config.spec_query() == args@[1]@
                    &&& config.spec_file_path() == args@[2]@
                    &&& config.spec_case_sensitive() == case_sensitive
                },
                Err(message) => {
                    &&& args@.len() < 3
                    &&& message@ == "not enough arguments. use: -- word file.txt "@
                },
            },
    {
        if args.len() < 3 {
            return Err("not enough arguments. use: -- word file.txt ");
        }
        let query = args[1].clone();
        let file_path = args[2].clone();
        Ok(Config { query, file_path, case_sensitive })
    }

    pub fn query(&self) -> (q: String)
        ensures
            q@ == self.spec_query(),
    {
        self.query.clone()
    }

    pub fn file_path(&self) -> (p: String)
        ensures
            p@ == self.spec_file_path(),
    {
        self.file_path.clone()
    }

    pub fn case_sensitive(&self) -> (c: bool)
        ensures
            c == self.spec_case_sensitive(),
    {
        self.case_sensitive
    }
}

} // verus!
