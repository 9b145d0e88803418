//! Recognisers for single lines: title, post-office box, street with house
//! number, postal code with city.

use vstd::prelude::*;
use crate::address::PostalCode;
use crate::patterns::{
    LinePatterns, TITLE_PATTERN, PO_BOX_PATTERN, HOUSE_PATTERN, ZIP_PATTERN, regex_groups, group,
    group_text, is_house_number, house_number_ok,
};
use crate::text::{
    trimmed, trim_text, digit_run, digit_run_end, decimal_value, decimal_of, pow10,
    split_first_space_spec, split_first_space, lemma_digit_run_to_end, lemma_decimal_bound,
};

verus! {

/// The whole line is a form of address.
pub open spec fn is_title(line: Seq<char>) -> bool {
    regex_groups(TITLE_PATTERN@, line) is Some
}

/// `s` is a string of `lo` to `hi` decimal digits.
pub open spec fn is_digits(s: Seq<char>, lo: nat, hi: nat) -> bool {
    lo <= s.len() <= hi && digit_run(s, 0) == s.len()
}

/// The box number of a post-office-box line.
pub open spec fn po_box_of(line: Seq<char>) -> Option<Seq<char>> {
    match regex_groups(PO_BOX_PATTERN@, line) {
        Some(g) => match group(g, 1) {
            Some(b) => if is_digits(b, 1, 4) {
                Some(b)
            } else {
                None
            },
            None => None,
        },
        None => None,
    }
}

/// The street and house number of a street line; the street is trimmed and
/// not empty, the house number follows the house-number grammar.
pub open spec fn street_of(line: Seq<char>) -> Option<(Seq<char>, Seq<char>)> {
    match regex_groups(HOUSE_PATTERN@, line) {
        Some(g) => match (group(g, 1), group(g, 2)) {
            (Some(a), Some(b)) => if trimmed(a).len() > 0 && is_house_number(trimmed(b)) {
                Some((trimmed(a), trimmed(b)))
            } else {
                None
            },
            _ => None,
        },
        None => None,
    }
}

/// The postal code written by the groups of a match of the postal-code
/// pattern: four digits, and one or two digits of suffix where present.
pub open spec fn postal_code_of(g: Seq<Option<Seq<char>>>) -> Option<PostalCode> {
    match group(g, 1) {
        Some(c) => if is_digits(c, 4, 4) {
            match group(g, 2) {
                Some(x) => if is_digits(x, 1, 2) {
                    Some(
                        PostalCode {
                            code: decimal_value(c) as u16,
                            suffix: Some(decimal_value(x) as u8),
                        },
                    )
                } else {
                    None
                },
                None => Some(PostalCode { code: decimal_value(c) as u16, suffix: None }),
            }
        } else {
            None
        },
        None => None,
    }
}

/// The postal code and city of a locality line: the text before the first
/// space is the code, the trimmed rest is the city.
pub open spec fn locality_of(line: Seq<char>) -> Option<(PostalCode, Seq<char>)> {
    let (token, rest) = split_first_space_spec(line);
    match regex_groups(ZIP_PATTERN@, token) {
        Some(g) => match postal_code_of(g) {
            Some(pc) => Some((pc, trimmed(rest))),
            None => None,
        },
        None => None,
    }
}

/// Whether `s` is a string of `lo` to `hi` decimal digits.
fn digits_ok(s: &str, lo: usize, hi: usize) -> (r: bool)
    ensures
        r == is_digits(s@, lo as nat, hi as nat),
{
    let n = s.unicode_len();
    lo <= n && n <= hi && digit_run_end(s, 0) == n
}

/// Whether the whole line is a form of address.
pub fn title_line(p: &LinePatterns, line: &str) -> (r: bool)
    requires
        p.wf(),
    ensures
        r == is_title(line@),
{
    p.title.captures(line).is_some()
}

/// The box number of a post-office-box line.
pub fn po_box_line(p: &LinePatterns, line: &str) -> (r: Option<String>)
    requires
        p.wf(),
    ensures
        crate::text::opt_text(r) == po_box_of(line@),
{
    let g = p.po_box.captures(line)?;
    let b = group_text(&g, 1)?;
    if digits_ok(b.as_str(), 1, 4) {
        Some(b)
    } else {
        None
    }
}

/// The street and house number of a street line.
pub fn street_line(p: &LinePatterns, line: &str) -> (r: Option<(String, String)>)
    requires
        p.wf(),
    ensures
        match r {
            Some((s, h)) => street_of(line@) == Some((s@, h@)),
            None => street_of(line@) is None,
        },
{
    let g = p.house.captures(line)?;
    let a = group_text(&g, 1)?;
    let b = group_text(&g, 2)?;
    let street = trim_text(a.as_str());
    let number = trim_text(b.as_str());
    if street.unicode_len() > 0 && house_number_ok(number.as_str()) {
        Some((street, number))
    } else {
        None
    }
}

/// Reads a string of `lo` to `hi` digits, `hi` at most 4.
fn digits_value(s: &str, lo: usize, hi: usize) -> (r: Option<u16>)
    requires
        hi <= 4,
    ensures
        r matches Some(v) ==> v as nat == decimal_value(s@) && (v as nat) < pow10(s@.len()),
        r is Some == is_digits(s@, lo as nat, hi as nat),
{
    if digits_ok(s, lo, hi) {
        proof {
            lemma_digit_run_to_end(s@, 0);
        }
        Some(decimal_of(s))
    } else {
        None
    }
}

/// The postal code and city of a locality line.
pub fn locality_line(p: &LinePatterns, line: &str) -> (r: Option<(PostalCode, String)>)
    requires
        p.wf(),
    ensures
        match r {
            Some((pc, c)) => locality_of(line@) == Some((pc, c@)),
            None => locality_of(line@) is None,
        },
{
    let (token, rest) = split_first_space(line);
    let g = p.zip.captures(token.as_str())?;
    let code = postal_code_from_groups(&g)?;
    let city = trim_text(rest.as_str());
    Some((code, city))
}

/// The postal code that the groups of a match of the postal-code pattern
/// write: four digits of code, then one or two digits of suffix where that
/// group matched; `None` where the groups have another shape.
pub fn postal_code_from_groups(g: &Vec<Option<String>>) -> (r: Option<PostalCode>)
    ensures
        r == postal_code_of(g@.map_values(|x: Option<String>| crate::text::opt_text(x))),
{
    let c = group_text(g, 1)?;
    let code = digits_value(c.as_str(), 4, 4)?;
    let suffix = match group_text(g, 2) {
        Some(x) => {
            let v = digits_value(x.as_str(), 1, 2)?;
            proof {
                reveal_with_fuel(pow10, 3);
            }
            Some(v as u8)
        },
        None => None,
    };
    Some(PostalCode { code, suffix })
}

/// What the recognisers make of one line.
pub struct LineMatch {
    pub po_box: Option<String>,
    pub street: Option<(String, String)>,
    pub locality: Option<(PostalCode, String)>,
}

/// The content of a `LineMatch`.
pub struct LineMatchView {
    pub po_box: Option<Seq<char>>,
    pub street: Option<(Seq<char>, Seq<char>)>,
    pub locality: Option<(PostalCode, Seq<char>)>,
}

impl View for LineMatch {
    type V = LineMatchView;

    open spec fn view(&self) -> LineMatchView {
        LineMatchView {
            po_box: crate::text::opt_text(self.po_box),
            street: match self.street {
                Some((s, h)) => Some((s@, h@)),
                None => None,
            },
            locality: match self.locality {
                Some((pc, c)) => Some((pc, c@)),
                None => None,
            },
        }
    }
}

/// What the recognisers make of `line`.
pub open spec fn line_match(line: Seq<char>) -> LineMatchView {
    LineMatchView { po_box: po_box_of(line), street: street_of(line), locality: locality_of(line) }
}

/// Runs every recogniser on a line.
pub fn match_line(p: &LinePatterns, line: &str) -> (r: LineMatch)
    requires
        p.wf(),
    ensures
        r@ == line_match(line@),
{
    LineMatch {
        po_box: po_box_line(p, line),
        street: street_line(p, line),
        locality: locality_line(p, line),
    }
}

/// A locality line whose code token matches with four digits `d` and no
/// suffix gives the postal code whose value is that of `d`, with no suffix,
/// and the trimmed rest of the line as its city.
pub proof fn locality_code_value(line: Seq<char>, g: Seq<Option<Seq<char>>>, d: Seq<char>)
    requires
        regex_groups(ZIP_PATTERN@, split_first_space_spec(line).0) == Some(g),
        group(g, 1) == Some(d),
        is_digits(d, 4, 4),
        group(g, 2) is None,
    ensures
        locality_of(line) matches Some((pc, city)) && pc.code as nat == decimal_value(d)
            && pc.suffix is None && city == trimmed(split_first_space_spec(line).1),
{
    lemma_digit_run_to_end(d, 0);
    lemma_decimal_bound(d);
    reveal_with_fuel(pow10, 5);
}

/// A locality line whose code token matches with four digits `d` and suffix
/// digits `x` gives the postal code whose value is that of `d`, with the
/// value of `x` as suffix, and the trimmed rest of the line as its city.
pub proof fn locality_code_and_suffix_value(
    line: Seq<char>,
    g: Seq<Option<Seq<char>>>,
    d: Seq<char>,
    x: Seq<char>,
)
    requires
        regex_groups(ZIP_PATTERN@, split_first_space_spec(line).0) == Some(g),
        group(g, 1) == Some(d),
        is_digits(d, 4, 4),
        group(g, 2) == Some(x),
        is_digits(x, 1, 2),
    ensures
        locality_of(line) matches Some((pc, city)) && pc.code as nat == decimal_value(d)
            && pc.suffix == Some(decimal_value(x) as u8) && decimal_value(x) < 100 && city
            == trimmed(split_first_space_spec(line).1),
{
    lemma_digit_run_to_end(d, 0);
    lemma_decimal_bound(d);
    lemma_digit_run_to_end(x, 0);
    lemma_decimal_bound(x);
    reveal_with_fuel(pow10, 5);
}

} // verus!
