//! The line patterns of the parser, compiled once, and the grammar of a
//! house number.

use vstd::prelude::*;
use regex::Regex;
use crate::text::{opt_text, digit_run, digit_run_end};

verus! {

#[verifier::external_type_specification]
#[verifier::external_body]
pub struct ExRegex(regex::Regex);

/// A whole line that is one of the known forms of address.
pub const TITLE_PATTERN: &'static str = r"(?i)^\s*(FRAU|HERR|MADAME|MONSIEUR|MR|MS|M|MME)\s*$";

/// A post-office box: a prefix in one of several languages, then its number.
pub const PO_BOX_PATTERN: &'static str = r"(?i)^\s*(?:P\.O\.\s*Box|Postfach|Case\s+Postale|Casella\s+Postale|CP)\s+([0-9]{1,4})\s*$";

/// A street name (the shortest prefix that lets the rest match) followed by
/// a house number.
pub const HOUSE_PATTERN: &'static str = r"(?i)^\s*(.+?)\s*([1-9][0-9]{0,3}(?:bis|ter|quater|quinquies|[A-Za-z])?(?:/[1-9][0-9]{0,3})?)\s*$";

/// A postal code of four digits, with an optional suffix of one or two
/// digits after an optional dash or space.
pub const ZIP_PATTERN: &'static str = r"^([0-9]{4})(?:[-\s]?([0-9]{1,2}))?$";

/// What `Regex::captures` reports for the regex compiled from `pattern` on
/// `subject`: `None` where nothing matches, else the text of each capture
/// group of the leftmost match (group 0 is the whole match), `None` for a
/// group that took no part in it.
pub uninterp spec fn regex_groups(pattern: Seq<char>, subject: Seq<char>) -> Option<Seq<Option<Seq<char>>>>;

/// The texts held by a list of capture groups.
pub open spec fn groups_view(r: Option<Vec<Option<String>>>) -> Option<Seq<Option<Seq<char>>>> {
    match r {
        Some(v) => Some(v@.map_values(|g: Option<String>| opt_text(g))),
        None => None,
    }
}

/// Group `i` of a match, `None` where the match has no such group.
pub open spec fn group(g: Seq<Option<Seq<char>>>, i: int) -> Option<Seq<char>> {
    if 0 <= i < g.len() {
        g[i]
    } else {
        None
    }
}

/// One of the four line patterns above.
pub open spec fn is_line_pattern(source: Seq<char>) -> bool {
    source == TITLE_PATTERN@ || source == PO_BOX_PATTERN@ || source == HOUSE_PATTERN@ || source
        == ZIP_PATTERN@
}

/// Relies on `regex::Regex::new`: compiles `source`, or reports that it
/// cannot; it fails only on an invalid pattern or one over the size limit,
/// which none of the four line patterns is.
#[verifier::external_body]
fn compile_regex(source: &str) -> (r: Option<Regex>)
    ensures
        is_line_pattern(source@) ==> r is Some,
{
    Regex::new(source).ok()
}

/// A compiled regular expression together with the text it was compiled from.
pub struct Pattern {
    source: String,
    regex: Regex,
}

impl Pattern {
    /// The text the pattern was compiled from.
    pub closed spec fn source(&self) -> Seq<char> {
        self.source@
    }

    /// Compiles `source`; `None` where the regex engine refuses it, which
    /// it does not for the line patterns.
    pub fn compile(source: &str) -> (r: Option<Pattern>)
        ensures
            r matches Some(p) ==> p.source() == source@,
            is_line_pattern(source@) ==> r is Some,
    {
        match compile_regex(source) {
            Some(regex) => Some(Pattern { source: source.to_string(), regex }),
            None => None,
        }
    }

    /// Relies on `regex::Regex::captures` (read through `Captures::iter` and
    /// `Match::as_str`) on the regex that `compile` built from `self.source`.
    #[verifier::external_body]
    pub(crate) fn captures(&self, s: &str) -> (r: Option<Vec<Option<String>>>)
        ensures
            groups_view(r) == regex_groups(self.source(), s@),
    {
        self.regex.captures(s).map(|c| c.iter().map(|m| m.map(|m| m.as_str().to_string())).collect())
    }
}

/// Compiles one of the line patterns.
fn compile_line_pattern(source: &str) -> (r: Pattern)
    requires
        is_line_pattern(source@),
    ensures
        r.source() == source@,
{
    match Pattern::compile(source) {
        Some(p) => p,
        None => unreached(),
    }
}

/// The four line patterns, compiled once and shared by every parse.
pub struct LinePatterns {
    pub title: Pattern,
    pub po_box: Pattern,
    pub house: Pattern,
    pub zip: Pattern,
}

impl LinePatterns {
    /// Each pattern was compiled from its source above.
    pub open spec fn wf(&self) -> bool {
        &&& self.title.source() == TITLE_PATTERN@
        &&& self.po_box.source() == PO_BOX_PATTERN@
        &&& self.house.source() == HOUSE_PATTERN@
        &&& self.zip.source() == ZIP_PATTERN@
    }

    /// Compiles the four patterns.
    pub fn new() -> (r: LinePatterns)
        ensures
            r.wf(),
    {
        LinePatterns {
            title: compile_line_pattern(TITLE_PATTERN),
            po_box: compile_line_pattern(PO_BOX_PATTERN),
            house: compile_line_pattern(HOUSE_PATTERN),
            zip: compile_line_pattern(ZIP_PATTERN),
        }
    }
}

/// An ASCII letter.
pub open spec fn is_letter(c: char) -> bool {
    ('a' <= c <= 'z') || ('A' <= c <= 'Z')
}

/// Index of the first character at or after `i` that is not an ASCII
/// letter, or the length of `s`.
pub open spec fn letter_run(s: Seq<char>, i: int) -> int
    decreases s.len() - i,
{
    if 0 <= i < s.len() && is_letter(s[i]) {
        letter_run(s, i + 1)
    } else {
        i
    }
}

/// `c` is the lower-case letter `w`, in either case.
pub open spec fn same_letter(c: char, w: char) -> bool {
    c == w || (c as u32) + 32 == (w as u32)
}

/// `t` spells the lower-case word `w`, ignoring case.
pub open spec fn spells(t: Seq<char>, w: Seq<char>) -> bool {
    t.len() == w.len() && forall|j: int| 0 <= j < t.len() ==> same_letter(#[trigger] t[j], w[j])
}

/// A suffix after the main number: one letter, or a Latin ordinal.
pub open spec fn is_number_suffix(t: Seq<char>) -> bool {
    t.len() == 1 || spells(t, "bis"@) || spells(t, "ter"@) || spells(t, "quater"@) || spells(
        t,
        "quinquies"@,
    )
}

/// Positions `from..to` of `s` write a number from 1 to 9999 without
/// leading zero.
pub open spec fn is_small_number(s: Seq<char>, from: int, to: int) -> bool {
    &&& 0 <= from < to <= s.len()
    &&& to - from <= 4
    &&& s[from] != '0'
    &&& digit_run(s, from) == to
}

/// A house number: a number from 1 to 9999, then optionally a letter or a
/// Latin ordinal, then optionally `/` and an apartment number from 1 to 9999.
pub open spec fn is_house_number(s: Seq<char>) -> bool {
    let d = digit_run(s, 0);
    let l = letter_run(s, d);
    &&& is_small_number(s, 0, d)
    &&& (l == d || is_number_suffix(s.subrange(d, l)))
    &&& (l == s.len() || (s[l] == '/' && l + 1 < s.len() && is_small_number(
        s,
        l + 1,
        s.len() as int,
    )))
}

/// Where the run of ASCII letters that starts at `from` ends.
fn letter_run_end(s: &str, from: usize) -> (r: usize)
    requires
        from <= s@.len(),
    ensures
        r == letter_run(s@, from as int),
        from <= r <= s@.len(),
{
    let n = s.unicode_len();
    let mut i: usize = from;
    while i < n && (('a' <= s.get_char(i) && s.get_char(i) <= 'z') || ('A' <= s.get_char(i)
        && s.get_char(i) <= 'Z'))
        invariant
            n == s@.len(),
            from <= i <= n,
            letter_run(s@, i as int) == letter_run(s@, from as int),
        decreases n - i,
    {
        i = i + 1;
    }
    i
}

/// Whether positions `from..to` of `s` spell `w`, ignoring case.
fn spells_at(s: &str, from: usize, to: usize, w: &str) -> (r: bool)
    requires
        from <= to <= s@.len(),
    ensures
        r == spells(s@.subrange(from as int, to as int), w@),
{
    let n = w.unicode_len();
    if to - from != n {
        return false;
    }
    let mut j: usize = 0;
    while j < n
        invariant
            n == w@.len(),
            to - from == n,
            to <= s@.len(),
            j <= n,
            forall|k: int|
                0 <= k < j ==> same_letter(#[trigger] s@.subrange(from as int, to as int)[k], w@[k]),
        decreases n - j,
    {
        let c = s.get_char(from + j);
        let x = w.get_char(j);
        if !(c == x || (c as u32) + 32 == (x as u32)) {
            assert(!same_letter(s@.subrange(from as int, to as int)[j as int], w@[j as int]));
            return false;
        }
        j = j + 1;
    }
    true
}

/// Whether positions `from..to` of `s` write a number from 1 to 9999.
fn small_number_at(s: &str, from: usize, to: usize) -> (r: bool)
    requires
        from <= to <= s@.len(),
    ensures
        r == is_small_number(s@, from as int, to as int),
{
    if from == to || to - from > 4 || s.get_char(from) == '0' {
        return false;
    }
    digit_run_end(s, from) == to
}

/// Whether `s` is a house number.
pub fn house_number_ok(s: &str) -> (r: bool)
    ensures
        r == is_house_number(s@),
{
    let n = s.unicode_len();
    let d = digit_run_end(s, 0);
    if !small_number_at(s, 0, d) {
        return false;
    }
    let l = letter_run_end(s, d);
    if l != d {
        let ordinal = l - d == 1 || spells_at(s, d, l, "bis") || spells_at(s, d, l, "ter")
            || spells_at(s, d, l, "quater") || spells_at(s, d, l, "quinquies");
        if !ordinal {
            return false;
        }
    }
    if l == n {
        return true;
    }
    s.get_char(l) == '/' && l + 1 < n && small_number_at(s, l + 1, n)
}

/// Group `i` of a match, copied out.
pub(crate) fn group_text(g: &Vec<Option<String>>, i: usize) -> (r: Option<String>)
    ensures
        opt_text(r) == group(g@.map_values(|x: Option<String>| opt_text(x)), i as int),
{
    if i < g.len() {
        match &g[i] {
            Some(t) => Some(t.clone()),
            None => None,
        }
    } else {
        None
    }
}

} // verus!
