//! The document outline scanner: finds section, subsection, subsubsection
//! and label markers, line by line, and reports each with its nesting
//! level and one-based line number.
//!
//! A marker is a backslash, one of the four keywords, an optional star,
//! and a braced, non-empty title; the first such marker of a line counts.

use vstd::prelude::*;
use vstd::string::StrSliceExecFns;
use vstd::string::StringExecFns;

verus! {

/// One entry of a document outline.
pub struct OutlineItem {
    pub title: String,
    pub level: u32,
    pub line: usize,
}

/// The first position at or after `i` holding `c`, if any.
pub open spec fn spec_find_char(s: Seq<char>, i: int, c: char) -> Option<int>
    decreases s.len() - i,
{
    if i < 0 || i >= s.len() {
        None
    } else if s[i] == c {
        Some(i)
    } else {
        spec_find_char(s, i + 1, c)
    }
}

/// A found position lies in `[i, s.len())`, holds `c`, and nothing before
/// it from `i` on does.
pub proof fn lemma_find_char_bounds(s: Seq<char>, i: int, c: char)
    requires
        0 <= i,
        spec_find_char(s, i, c) matches Some(p),
    ensures
        ({
            let p = spec_find_char(s, i, c)->0;
            &&& i <= p < s.len()
            &&& s[p] == c
            &&& forall|j: int| i <= j < p ==> s[j] != c
        }),
    decreases s.len() - i,
{
    if i < s.len() && s[i] != c {
        lemma_find_char_bounds(s, i + 1, c);
    }
}

fn find_char_from(s: &str, start: usize, c: char) -> (r: Option<usize>)
    requires
        start <= s@.len(),
    ensures
        match r {
            Some(p) => spec_find_char(s@, start as int, c) == Some(p as int),
            None => spec_find_char(s@, start as int, c) is None,
        },
{
    let len = s.unicode_len();
    let mut i: usize = start;
    while i < len
        invariant
            start <= i <= len,
            len == s@.len(),
            spec_find_char(s@, start as int, c) == spec_find_char(s@, i as int, c),
        decreases len - i,
    {
        if s.get_char(i) == c {
            return Some(i);
        }
        i += 1;
    }
    None
}

/// Whether the word `w` occurs in `s` starting at position `p`.
pub open spec fn spec_has_at(s: Seq<char>, p: int, w: Seq<char>) -> bool {
    &&& 0 <= p
    &&& p + w.len() <= s.len()
    &&& s.subrange(p, p + w.len()) == w
}

fn has_at(s: &str, p: usize, w: &str) -> (r: bool)
    requires
        p <= s@.len(),
    ensures
        r == spec_has_at(s@, p as int, w@),
{
    let slen = s.unicode_len();
    let wlen = w.unicode_len();
    if wlen > slen - p {
        return false;
    }
    let mut j: usize = 0;
    while j < wlen
        invariant
            0 <= j <= wlen,
            p + wlen <= slen,
            slen == s@.len(),
            wlen == w@.len(),
            forall|x: int| 0 <= x < j ==> s@[p + x] == w@[x],
        decreases wlen - j,
    {
        if s.get_char(p + j) != w.get_char(j) {
            assert(s@.subrange(p as int, p + wlen) != w@) by {
                assert(s@.subrange(p as int, p + wlen)[j as int] == s@[p + j]);
            }
            return false;
        }
        j += 1;
    }
    assert(s@.subrange(p as int, p + wlen) =~= w@);
    true
}

/// The marker keyword for each outline level: sections nest above
/// subsections and subsubsections, and labels sit at the deepest level.
pub open spec fn spec_keyword(level: int) -> Seq<char> {
    if level == 1 {
        "section"@
    } else if level == 2 {
        "subsection"@
    } else if level == 3 {
        "subsubsection"@
    } else {
        "label"@
    }
}

/// The level of the marker keyword occurring at position `p`, if one does.
/// At most one can: no keyword is a prefix of another.
pub open spec fn spec_keyword_at(s: Seq<char>, p: int) -> Option<int> {
    if spec_has_at(s, p, "section"@) {
        Some(1)
    } else if spec_has_at(s, p, "subsection"@) {
        Some(2)
    } else if spec_has_at(s, p, "subsubsection"@) {
        Some(3)
    } else if spec_has_at(s, p, "label"@) {
        Some(4)
    } else {
        None
    }
}

fn keyword_at(s: &str, p: usize) -> (r: Option<u32>)
    requires
        p <= s@.len(),
    ensures
        match r {
            Some(l) => spec_keyword_at(s@, p as int) == Some(l as int),
            None => spec_keyword_at(s@, p as int) is None,
        },
{
    if has_at(s, p, "section") {
        Some(1)
    } else if has_at(s, p, "subsection") {
        Some(2)
    } else if has_at(s, p, "subsubsection") {
        Some(3)
    } else if has_at(s, p, "label") {
        Some(4)
    } else {
        None
    }
}

/// The marker match starting exactly at position `i`: a backslash, a
/// keyword, an optional star, then a braced non-empty title running to the
/// first closing brace.
pub open spec fn spec_match_at(s: Seq<char>, i: int) -> Option<(int, Seq<char>)> {
    if !(0 <= i < s.len()) || s[i] != '\\' {
        None
    } else {
        match spec_keyword_at(s, i + 1) {
            Some(level) => {
                let j = i + 1 + spec_keyword(level).len();
                let k = if j < s.len() && s[j] == '*' {
                    j + 1
                } else {
                    j
                };
                if k < s.len() && s[k] == '{' {
                    match spec_find_char(s, k + 1, '}') {
                        Some(close) => if close > k + 1 {
                            Some((level, s.subrange(k + 1, close)))
                        } else {
                            None
                        },
                        None => None,
                    }
                } else {
                    None
                }
            },
            None => None,
        }
    }
}

#[verifier::loop_isolation(false)]
fn match_at(s: &str, i: usize) -> (r: Option<(u32, String)>)
    requires
        i < s@.len(),
    ensures
        match r {
            Some(m) => spec_match_at(s@, i as int) == Some((m.0 as int, m.1@)),
            None => spec_match_at(s@, i as int) is None,
        },
{
    let len = s.unicode_len();
    if s.get_char(i) != '\\' {
        return None;
    }
    let level = match keyword_at(s, i + 1) {
        Some(l) => l,
        None => {
            return None;
        },
    };
    proof {
        reveal_strlit("section");
        reveal_strlit("subsection");
        reveal_strlit("subsubsection");
        reveal_strlit("label");
    }
    let kwlen: usize = if level == 1 {
        7
    } else if level == 2 {
        10
    } else if level == 3 {
        13
    } else {
        5
    };
    assert(kwlen == spec_keyword(level as int).len());
    let j = i + 1 + kwlen;
    assert(j <= len);
    let k = if j < len && s.get_char(j) == '*' {
        j + 1
    } else {
        j
    };
    if !(k < len) {
        return None;
    }
    if s.get_char(k) != '{' {
        return None;
    }
    match find_char_from(s, k + 1, '}') {
        Some(close) => {
            if close > k + 1 {
                proof {
                    lemma_find_char_bounds(s@, k + 1, '}');
                }
                let title = String::from_str(s.substring_char(k + 1, close));
                Some((level, title))
            } else {
                None
            }
        },
        None => None,
    }
}

/// The first marker match of `s` at or after position `i`.
pub open spec fn spec_scan_from(s: Seq<char>, i: int) -> Option<(int, Seq<char>)>
    decreases s.len() - i,
{
    if i < 0 || i >= s.len() {
        None
    } else {
        match spec_match_at(s, i) {
            Some(m) => Some(m),
            None => spec_scan_from(s, i + 1),
        }
    }
}

/// The first marker match of a whole line.
pub open spec fn spec_line_match(s: Seq<char>) -> Option<(int, Seq<char>)> {
    spec_scan_from(s, 0)
}

#[verifier::loop_isolation(false)]
fn first_match(s: &str) -> (r: Option<(u32, String)>)
    ensures
        match r {
            Some(m) => spec_line_match(s@) == Some((m.0 as int, m.1@)),
            None => spec_line_match(s@) is None,
        },
{
    let len = s.unicode_len();
    let mut i: usize = 0;
    while i < len
        invariant
            0 <= i <= len,
            spec_line_match(s@) == spec_scan_from(s@, i as int),
        decreases len - i,
    {
        match match_at(s, i) {
            Some(m) => {
                return Some(m);
            },
            None => {},
        }
        i += 1;
    }
    None
}

/// A line segment with one carriage return stripped from its end, as the
/// line iterator hands it out before a newline.
pub open spec fn spec_strip_cr(s: Seq<char>) -> Seq<char> {
    if s.len() > 0 && s[s.len() - 1] == '\r' {
        s.take(s.len() - 1)
    } else {
        s
    }
}

/// The lines of `s` from position `i` on: segments split at newlines, a
/// carriage return before each newline stripped, no trailing empty line.
pub open spec fn spec_lines_from(s: Seq<char>, i: int) -> Seq<Seq<char>>
    decreases s.len() - i,
    via spec_lines_from_decreases
{
    if i < 0 || i >= s.len() {
        Seq::empty()
    } else {
        match spec_find_char(s, i, '\n') {
            Some(p) => seq![spec_strip_cr(s.subrange(i, p))] + spec_lines_from(s, p + 1),
            None => seq![s.subrange(i, s.len() as int)],
        }
    }
}

#[via_fn]
proof fn spec_lines_from_decreases(s: Seq<char>, i: int) {
    if 0 <= i < s.len() {
        match spec_find_char(s, i, '\n') {
            Some(p) => {
                lemma_find_char_bounds(s, i, '\n');
            },
            None => {},
        }
    }
}

/// The lines of a document, as the standard line iterator yields them.
pub open spec fn spec_split_lines(s: Seq<char>) -> Seq<Seq<char>> {
    spec_lines_from(s, 0)
}

/// The views of a list of lines.
pub open spec fn spec_line_views(lines: Seq<String>) -> Seq<Seq<char>> {
    lines.map_values(|l: String| l@)
}

/// Splits a document into its lines.
#[verifier::loop_isolation(false)]
pub fn split_lines(s: &str) -> (r: Vec<String>)
    ensures
        spec_line_views(r@) == spec_split_lines(s@),
{
    let len = s.unicode_len();
    let mut out: Vec<String> = Vec::new();
    let mut i: usize = 0;
    while i < len
        invariant
            0 <= i <= len,
            spec_line_views(out@) + spec_lines_from(s@, i as int) == spec_split_lines(s@),
        decreases len - i,
    {
        let ghost prev = spec_line_views(out@);
        match find_char_from(s, i, '\n') {
            Some(p) => {
                proof {
                    lemma_find_char_bounds(s@, i as int, '\n');
                }
                let head_end = if p > i && s.get_char(p - 1) == '\r' {
                    p - 1
                } else {
                    p
                };
                let head = s.substring_char(i, head_end);
                assert(head@ =~= spec_strip_cr(s@.subrange(i as int, p as int)));
                out.push(String::from_str(head));
                proof {
                    assert(spec_line_views(out@) =~= prev + seq![head@]);
                    assert(spec_line_views(out@) + spec_lines_from(s@, p + 1) =~= prev
                        + spec_lines_from(s@, i as int));
                }
                i = p + 1;
            },
            None => {
                let head = s.substring_char(i, len);
                out.push(String::from_str(head));
                proof {
                    assert(spec_line_views(out@) =~= prev + seq![head@]);
                    assert(spec_line_views(out@) + spec_lines_from(s@, len as int) =~= prev
                        + spec_lines_from(s@, i as int));
                }
                i = len;
            },
        }
    }
    assert(spec_line_views(out@) =~= spec_line_views(out@) + spec_lines_from(s@, len as int));
    out
}

/// How an entry's title is displayed: labels are prefixed so they stand
/// apart in the outline.
pub open spec fn spec_display_title(level: int, title: Seq<char>) -> Seq<char> {
    if level == 4 {
        "Label: "@ + title
    } else {
        title
    }
}

/// The outline entries of the lines from index `i` on, each as (displayed
/// title, level, one-based line number).
pub open spec fn spec_outline_from(lines: Seq<Seq<char>>, i: int) -> Seq<(Seq<char>, int, int)>
    decreases lines.len() - i,
{
    if i < 0 || i >= lines.len() {
        Seq::empty()
    } else {
        let rest = spec_outline_from(lines, i + 1);
        match spec_line_match(lines[i]) {
            Some(m) => seq![(spec_display_title(m.0, m.1), m.0, i + 1)] + rest,
            None => rest,
        }
    }
}

/// The views of a list of outline items.
pub open spec fn spec_item_views(items: Seq<OutlineItem>) -> Seq<(Seq<char>, int, int)> {
    items.map_values(|it: OutlineItem| (it.title@, it.level as int, it.line as int))
}

/// Scans a document for outline markers: each line's first marker yields
/// one entry, with labels displayed under a `Label: ` prefix and counted
/// at the deepest level.
#[verifier::loop_isolation(false)]
pub fn get_document_outline(content: &str) -> (r: Vec<OutlineItem>)
    ensures
        spec_item_views(r@) == spec_outline_from(spec_split_lines(content@), 0),
{
    let lines = split_lines(content);
    let ghost lviews = spec_split_lines(content@);
    let n = lines.len();
    let mut items: Vec<OutlineItem> = Vec::new();
    let mut i: usize = 0;
    while i < n
        invariant
            0 <= i <= n,
            n == lines@.len(),
            spec_item_views(items@) + spec_outline_from(lviews, i as int) == spec_outline_from(
                lviews,
                0,
            ),
        decreases n - i,
    {
        let ghost prev = spec_item_views(items@);
        match first_match(lines[i].as_str()) {
            Some((level, title)) => {
                let ghost tview = title@;
                let display = if level == 4 {
                    let mut d = String::from_str("Label: ");
                    d.append(title.as_str());
                    d
                } else {
                    title
                };
                items.push(OutlineItem { title: display, level, line: i + 1 });
                proof {
                    assert(lviews[i as int] == lines@[i as int]@);
                    assert(spec_item_views(items@) =~= prev + seq![
                        (spec_display_title(level as int, tview), level as int, i + 1 as int),
                    ]);
                    assert(spec_item_views(items@) + spec_outline_from(lviews, i + 1) =~= prev
                        + spec_outline_from(lviews, i as int));
                }
            },
            None => {
                proof {
                    assert(lviews[i as int] == lines@[i as int]@);
                    assert(spec_item_views(items@) + spec_outline_from(lviews, i + 1) =~= prev
                        + spec_outline_from(lviews, i as int));
                }
            },
        }
        i += 1;
    }
    assert(spec_item_views(items@) =~= spec_item_views(items@) + spec_outline_from(
        lviews,
        n as int,
    ));
    items
}

} // verus!
