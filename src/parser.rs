//! The address assembler: picks out the title and the name at the head of a
//! record, then classifies every further line into the slot it fills.

use vstd::prelude::*;
use crate::address::{
    UnstructuredAddress, UnstructuredAddressView, StructuredAddress, StructuredAddressView,
    AddressLine, AddressLineView, PostalCode, ParseError,
};
use crate::lines::{
    is_title, po_box_of, street_of, locality_of, title_line, LineMatch, LineMatchView, line_match,
    match_line,
};
use crate::patterns::{LinePatterns, is_house_number};
use crate::text::{opt_text, texts, whitespace_tokens, split_words};

verus! {

/// The roles filled so far while the lines after the name are read.
pub struct Slots {
    pub address: Option<AddressLineView>,
    pub locality: Option<(PostalCode, Seq<char>)>,
    pub compl1: Option<Seq<char>>,
    pub compl2: Option<Seq<char>>,
}

/// No role filled yet.
pub open spec fn empty_slots() -> Slots {
    Slots { address: None, locality: None, compl1: None, compl2: None }
}

/// What a line does to the slots, given what the recognisers made of it:
/// the first of post-office box, street, locality and complement that it
/// fits and whose slot is still free; a line that fits none once both
/// complements are taken is dropped.
pub open spec fn fill(s: Slots, line: Seq<char>, m: LineMatchView) -> Slots {
    if s.address is None && m.po_box is Some {
        Slots { address: Some(AddressLineView::PoBox { box_number: m.po_box->0 }), ..s }
    } else if s.address is None && m.street is Some {
        let (street, house_number) = m.street->0;
        Slots { address: Some(AddressLineView::Street { street, house_number }), ..s }
    } else if s.locality is None && m.locality is Some {
        Slots { locality: m.locality, ..s }
    } else if s.compl1 is None {
        Slots { compl1: Some(line), ..s }
    } else if s.compl2 is None {
        Slots { compl2: Some(line), ..s }
    } else {
        s
    }
}

/// What one line does to the slots.
pub open spec fn classify(s: Slots, line: Seq<char>) -> Slots {
    fill(s, line, line_match(line))
}

/// The slots after reading `lines` in order, starting from `s`.
pub open spec fn classify_all(s: Slots, lines: Seq<Seq<char>>) -> Slots
    decreases lines.len(),
{
    if lines.len() == 0 {
        s
    } else {
        classify(classify_all(s, lines.drop_last()), lines.last())
    }
}

/// The slots as the parser holds them.
pub struct LineSlots {
    pub address: Option<AddressLine>,
    pub locality: Option<(PostalCode, String)>,
    pub compl1: Option<String>,
    pub compl2: Option<String>,
}

impl View for LineSlots {
    type V = Slots;

    open spec fn view(&self) -> Slots {
        Slots {
            address: match self.address {
                Some(a) => Some(a@),
                None => None,
            },
            locality: match self.locality {
                Some((pc, c)) => Some((pc, c@)),
                None => None,
            },
            compl1: opt_text(self.compl1),
            compl2: opt_text(self.compl2),
        }
    }
}

impl LineSlots {
    /// No role filled yet.
    pub fn new() -> (r: LineSlots)
        ensures
            r@ == empty_slots(),
    {
        LineSlots { address: None, locality: None, compl1: None, compl2: None }
    }

    /// Puts a line into the slot it fills, given what the recognisers made
    /// of it.
    pub fn fill_line(&mut self, line: &str, m: LineMatch)
        ensures
            final(self)@ == fill(old(self)@, line@, m@),
    {
        let LineMatch { po_box, street, locality } = m;
        if self.address.is_none() {
            if let Some(b) = po_box {
                self.address = Some(AddressLine::PoBox { box_number: b });
                return ;
            }
            if let Some((street, house_number)) = street {
                self.address = Some(AddressLine::Street { street, house_number });
                return ;
            }
        }
        if self.locality.is_none() {
            if let Some(l) = locality {
                self.locality = Some(l);
                return ;
            }
        }
        if self.compl1.is_none() {
            self.compl1 = Some(line.to_string());
        } else if self.compl2.is_none() {
            self.compl2 = Some(line.to_string());
        }
    }

    /// Reads one line into the slots.
    pub fn classify_line(&mut self, p: &LinePatterns, line: &str)
        requires
            p.wf(),
        ensures
            final(self)@ == classify(old(self)@, line@),
    {
        let m = match_line(p, line);
        self.fill_line(line, m);
    }
}

/// The non-empty lines of a record, in order.
pub open spec fn present_lines(lines: Seq<Option<Seq<char>>>) -> Seq<Seq<char>>
    decreases lines.len(),
{
    if lines.len() == 0 {
        Seq::empty()
    } else {
        let before = present_lines(lines.drop_last());
        match lines.last() {
            Some(t) => if t.len() > 0 {
                before.push(t)
            } else {
                before
            },
            None => before,
        }
    }
}

/// Word `i` of a list of words, empty where there is none.
pub open spec fn word(ws: Seq<Seq<char>>, i: int) -> Seq<char> {
    if 0 <= i < ws.len() {
        ws[i]
    } else {
        Seq::empty()
    }
}

/// The words of a name line split into the title written before the name,
/// where the first word is one, then the last name and the first name;
/// missing words are empty.
pub open spec fn split_name_spec(ws: Seq<Seq<char>>, first_is_title: bool) -> (
    Option<Seq<char>>,
    Seq<char>,
    Seq<char>,
) {
    if first_is_title {
        (Some(word(ws, 0)), word(ws, 1), word(ws, 2))
    } else {
        (None, word(ws, 0), word(ws, 1))
    }
}

/// The title written before the name on the name line, if any; then the
/// last name and the first name.
pub open spec fn name_parts(line: Seq<char>) -> (Option<Seq<char>>, Seq<char>, Seq<char>) {
    let ws = whitespace_tokens(line);
    split_name_spec(ws, is_title(word(ws, 0)))
}

/// The first line is a title line of its own.
pub open spec fn has_title_line(ls: Seq<Seq<char>>) -> bool {
    ls.len() > 0 && is_title(ls[0])
}

/// Where the name line stands among the present lines.
pub open spec fn name_index(ls: Seq<Seq<char>>) -> int {
    if has_title_line(ls) {
        1
    } else {
        0
    }
}

/// The name line, empty where the record has none.
pub open spec fn name_line(ls: Seq<Seq<char>>) -> Seq<char> {
    word(ls, name_index(ls))
}

/// The lines after the name line.
pub open spec fn body_lines(ls: Seq<Seq<char>>) -> Seq<Seq<char>> {
    let k = name_index(ls) + 1;
    if k <= ls.len() {
        ls.subrange(k, ls.len() as int)
    } else {
        Seq::empty()
    }
}

/// The country of every parsed address.
pub open spec fn default_country() -> Seq<char> {
    seq!['C', 'H']
}

/// The structured address that a record with an identifier yields.
pub open spec fn assemble(u: UnstructuredAddressView) -> StructuredAddressView {
    let ls = present_lines(u.lines);
    let (inline_title, lastname, firstname) = name_parts(name_line(ls));
    let slots = classify_all(empty_slots(), body_lines(ls));
    StructuredAddressView {
        id: u.id,
        title: if has_title_line(ls) {
            Some(ls[0])
        } else {
            inline_title
        },
        name: Some(lastname + seq![' '] + firstname),
        lastname: Some(lastname),
        firstname: Some(firstname),
        compl1: slots.compl1,
        compl2: slots.compl2,
        address: match slots.address {
            Some(a) => a,
            None => AddressLineView::Street { street: Seq::empty(), house_number: Seq::empty() },
        },
        postal: match slots.locality {
            Some((pc, _)) => pc,
            None => PostalCode { code: 0, suffix: None },
        },
        city: match slots.locality {
            Some((_, c)) => c,
            None => Seq::empty(),
        },
        country: default_country(),
    }
}

/// What parsing a record gives: an error where it has no identifier, else
/// its assembled address.
pub open spec fn parse_spec(u: UnstructuredAddressView) -> Result<StructuredAddressView, ParseError> {
    if u.id.len() == 0 {
        Err(ParseError::MissingIdentifier)
    } else {
        Ok(assemble(u))
    }
}

/// The content of a parse result.
pub open spec fn result_view(r: Result<StructuredAddress, ParseError>) -> Result<StructuredAddressView, ParseError> {
    match r {
        Ok(a) => Ok(a@),
        Err(e) => Err(e),
    }
}

/// Word `i` of a list of words, copied out.
fn word_at(ws: &Vec<String>, i: usize) -> (r: String)
    ensures
        r@ == word(texts(ws@), i as int),
{
    if i < ws.len() {
        ws[i].clone()
    } else {
        String::new()
    }
}

/// Splits the words of a name line into the title written before the
/// name (where `first_is_title` says the first word is one), the last name
/// and the first name.
pub fn split_name(words: &Vec<String>, first_is_title: bool) -> (r: (Option<String>, String, String))
    ensures
        (opt_text(r.0), r.1@, r.2@) == split_name_spec(texts(words@), first_is_title),
{
    if first_is_title {
        (Some(word_at(words, 0)), word_at(words, 1), word_at(words, 2))
    } else {
        (None, word_at(words, 0), word_at(words, 1))
    }
}

/// The non-empty lines of a record.
fn compact_lines(lines: &[Option<String>; 6]) -> (r: Vec<String>)
    ensures
        texts(r@) == present_lines(lines@.map_values(|l: Option<String>| opt_text(l))),
{
    let ghost all = lines@.map_values(|l: Option<String>| opt_text(l));
    let mut out: Vec<String> = Vec::new();
    let mut i: usize = 0;
    while i < 6
        invariant
            i <= 6,
            all == lines@.map_values(|l: Option<String>| opt_text(l)),
            all.len() == 6,
            texts(out@) == present_lines(all.subrange(0, i as int)),
        decreases 6 - i,
    {
        proof {
            assert(all.subrange(0, i + 1).drop_last() =~= all.subrange(0, i as int));
            assert(all.subrange(0, i + 1).last() == all[i as int]);
        }
        match &lines[i] {
            Some(t) => {
                if t.as_str().unicode_len() > 0 {
                    let ghost before = out@;
                    out.push(t.clone());
                    proof {
                        assert(texts(out@) =~= texts(before).push(t@));
                    }
                }
            },
            None => {},
        }
        i = i + 1;
    }
    assert(all.subrange(0, 6) =~= all);
    out
}

impl StructuredAddress {
    /// Parses a raw record: an error where it has no identifier; otherwise
    /// the title and name from its head lines, then the street or box, the
    /// postal code and city, and up to two complement lines from the rest.
    pub fn parse(raw: &UnstructuredAddress, patterns: &LinePatterns) -> (r: Result<
        StructuredAddress,
        ParseError,
    >)
        requires
            patterns.wf(),
        ensures
            result_view(r) == parse_spec(raw@),
    {
        if raw.id.as_str().unicode_len() == 0 {
            return Err(ParseError::MissingIdentifier);
        }
        let ls = compact_lines(&raw.lines);
        let ghost gl = texts(ls@);
        let n = ls.len();
        let lead = n > 0 && title_line(patterns, ls[0].as_str());
        let at: usize = if lead {
            1
        } else {
            0
        };
        assert(lead == has_title_line(gl));
        assert(at == name_index(gl));
        let name_text = word_at(&ls, at);
        let ws = split_words(name_text.as_str());
        let first = word_at(&ws, 0);
        let inline = title_line(patterns, first.as_str());
        let (inline_title, lastname, firstname) = split_name(&ws, inline);
        let title = if lead {
            Some(ls[0].clone())
        } else {
            inline_title
        };
        let start: usize = if at + 1 <= n {
            at + 1
        } else {
            n
        };
        assert(body_lines(gl) =~= gl.subrange(start as int, n as int));
        let mut slots = LineSlots::new();
        let mut i: usize = start;
        while i < n
            invariant
                gl == texts(ls@),
                n == ls.len(),
                start <= i <= n,
                patterns.wf(),
                slots@ == classify_all(empty_slots(), gl.subrange(start as int, i as int)),
            decreases n - i,
        {
            proof {
                assert(gl.subrange(start as int, i + 1).drop_last() =~= gl.subrange(
                    start as int,
                    i as int,
                ));
            }
            slots.classify_line(patterns, ls[i].as_str());
            i = i + 1;
        }
        let mut name = lastname.clone();
        name.append(" ");
        name.append(firstname.as_str());
        let country = String::from_str("CH");
        proof {
            reveal_strlit(" ");
            reveal_strlit("CH");
            assert(country@ =~= default_country());
        }
        let LineSlots { address, locality, compl1, compl2 } = slots;
        let address = match address {
            Some(a) => a,
            None => AddressLine::Street { street: String::new(), house_number: String::new() },
        };
        let (postal, city) = match locality {
            Some((pc, c)) => (pc, c),
            None => (PostalCode { code: 0, suffix: None }, String::new()),
        };
        let r = StructuredAddress {
            id: raw.id.clone(),
            title,
            name: Some(name),
            lastname: Some(lastname),
            firstname: Some(firstname),
            compl1,
            compl2,
            address,
            postal,
            city,
            country,
        };
        proof {
            let a = assemble(raw@);
            assert(r@.title == a.title);
            assert(r@.name == a.name);
            assert(r@.address == a.address);
            assert(r@.postal == a.postal);
            assert(r@.city == a.city);
        }
        assert(r@ =~= assemble(raw@));
        Ok(r)
    }
}

/// The lines after the name line of a record.
pub open spec fn body_of(u: UnstructuredAddressView) -> Seq<Seq<char>> {
    body_lines(present_lines(u.lines))
}

/// The slots just before line `i` of the body of a record is read.
pub open spec fn slots_before(u: UnstructuredAddressView, i: int) -> Slots {
    classify_all(empty_slots(), body_of(u).take(i))
}

/// Whether `line` fills the address or the locality, given the slots.
pub open spec fn fills_role(s: Slots, line: Seq<char>) -> bool {
    ||| s.address is None && (po_box_of(line) is Some || street_of(line) is Some)
    ||| s.locality is None && locality_of(line) is Some
}

/// Reading one more line is one more step of the classifier.
proof fn lemma_classify_step(s: Slots, lines: Seq<Seq<char>>, i: int)
    requires
        0 <= i < lines.len(),
    ensures
        classify_all(s, lines.take(i + 1)) == classify(classify_all(s, lines.take(i)), lines[i]),
{
    assert(lines.take(i + 1).drop_last() =~= lines.take(i));
}

/// A slot, once filled, keeps its value through every later line.
proof fn lemma_slots_kept(s: Slots, lines: Seq<Seq<char>>, j: int)
    requires
        0 <= j <= lines.len(),
    ensures
        ({
            let mid = classify_all(s, lines.take(j));
            let end = classify_all(s, lines);
            &&& mid.address is Some ==> end.address == mid.address
            &&& mid.locality is Some ==> end.locality == mid.locality
            &&& mid.compl1 is Some ==> end.compl1 == mid.compl1
            &&& mid.compl2 is Some ==> end.compl2 == mid.compl2
        }),
    decreases lines.len(),
{
    if j == lines.len() {
        assert(lines.take(j) =~= lines);
    } else {
        let p = lines.drop_last();
        assert(p.take(j) =~= lines.take(j));
        lemma_slots_kept(s, p, j);
    }
}

/// A record that is not rejected keeps its identifier.
pub proof fn parse_keeps_id(u: UnstructuredAddressView)
    ensures
        parse_spec(u) matches Ok(a) ==> a.id == u.id,
        parse_spec(u) is Ok <==> u.id.len() > 0,
{
}

/// A post-office-box line read while no street or box is known makes the
/// address that box, with the number the line gives.
pub proof fn po_box_line_gives_box(u: UnstructuredAddressView, i: int)
    requires
        u.id.len() > 0,
        0 <= i < body_of(u).len(),
        slots_before(u, i).address is None,
        po_box_of(body_of(u)[i]) is Some,
    ensures
        parse_spec(u) matches Ok(a) && a.address == (AddressLineView::PoBox {
            box_number: po_box_of(body_of(u)[i])->0,
        }),
{
    lemma_classify_step(empty_slots(), body_of(u), i);
    lemma_slots_kept(empty_slots(), body_of(u), i + 1);
}

/// A street line read while no street or box is known, and that is no
/// post-office-box line, makes the address that street; its street name is
/// not empty and its house number follows the house-number grammar.
pub proof fn street_line_gives_street(u: UnstructuredAddressView, i: int)
    requires
        u.id.len() > 0,
        0 <= i < body_of(u).len(),
        slots_before(u, i).address is None,
        po_box_of(body_of(u)[i]) is None,
        street_of(body_of(u)[i]) is Some,
    ensures
        ({
            let (street, house_number) = street_of(body_of(u)[i])->0;
            &&& parse_spec(u) matches Ok(a) && a.address == (AddressLineView::Street {
                street,
                house_number,
            })
            &&& street.len() > 0
            &&& is_house_number(house_number)
        }),
{
    lemma_classify_step(empty_slots(), body_of(u), i);
    lemma_slots_kept(empty_slots(), body_of(u), i + 1);
}

/// A locality line that does not fill the address, read while no locality
/// is known, gives the postal code and city.
pub proof fn locality_line_gives_locality(u: UnstructuredAddressView, i: int)
    requires
        u.id.len() > 0,
        0 <= i < body_of(u).len(),
        slots_before(u, i).locality is None,
        !(slots_before(u, i).address is None && (po_box_of(body_of(u)[i]) is Some || street_of(
            body_of(u)[i],
        ) is Some)),
        locality_of(body_of(u)[i]) is Some,
    ensures
        ({
            let (postal, city) = locality_of(body_of(u)[i])->0;
            parse_spec(u) matches Ok(a) && a.postal == postal && a.city == city
        }),
{
    lemma_classify_step(empty_slots(), body_of(u), i);
    lemma_slots_kept(empty_slots(), body_of(u), i + 1);
}

/// A line that fills no role goes to the first free complement slot, in
/// the order of the lines; once both are taken it is dropped and changes
/// nothing.
pub proof fn unclassified_line_goes_to_complement(u: UnstructuredAddressView, i: int)
    requires
        u.id.len() > 0,
        0 <= i < body_of(u).len(),
        !fills_role(slots_before(u, i), body_of(u)[i]),
    ensures
        slots_before(u, i).compl1 is None ==> (parse_spec(u) matches Ok(a) && a.compl1 == Some(
            body_of(u)[i],
        )),
        slots_before(u, i).compl1 is Some && slots_before(u, i).compl2 is None ==> (parse_spec(
            u,
        ) matches Ok(a) && a.compl2 == Some(body_of(u)[i])),
        slots_before(u, i).compl1 is Some && slots_before(u, i).compl2 is Some ==> classify(
            slots_before(u, i),
            body_of(u)[i],
        ) == slots_before(u, i),
{
    lemma_classify_step(empty_slots(), body_of(u), i);
    lemma_slots_kept(empty_slots(), body_of(u), i + 1);
}

/// Every parsed address has the country `CH`.
pub proof fn parse_country_default(u: UnstructuredAddressView)
    ensures
        parse_spec(u) matches Ok(a) ==> a.country == seq!['C', 'H'],
{
}

/// Parsing is a function of the record alone: two parses of one record
/// give the same address, or the same error.
pub proof fn parse_is_deterministic(
    raw: &UnstructuredAddress,
    r1: Result<StructuredAddress, ParseError>,
    r2: Result<StructuredAddress, ParseError>,
)
    requires
        result_view(r1) == parse_spec(raw@),
        result_view(r2) == parse_spec(raw@),
    ensures
        result_view(r1) == result_view(r2),
{
}

/// The lines among `lines`, read from `s`, that fill no role when they are
/// reached, in order.
pub open spec fn unmatched_lines(s: Slots, lines: Seq<Seq<char>>) -> Seq<Seq<char>>
    decreases lines.len(),
{
    if lines.len() == 0 {
        Seq::empty()
    } else {
        let before = unmatched_lines(s, lines.drop_last());
        if fills_role(classify_all(s, lines.drop_last()), lines.last()) {
            before
        } else {
            before.push(lines.last())
        }
    }
}

/// Line `k` of a list, `None` where there is none.
pub open spec fn nth_line(ls: Seq<Seq<char>>, k: int) -> Option<Seq<char>> {
    if 0 <= k < ls.len() {
        Some(ls[k])
    } else {
        None
    }
}

/// From no role filled, the complement slots hold the first two lines that
/// fill no role.
proof fn lemma_complements(lines: Seq<Seq<char>>)
    ensures
        classify_all(empty_slots(), lines).compl1 == nth_line(unmatched_lines(empty_slots(), lines), 0),
        classify_all(empty_slots(), lines).compl2 == nth_line(unmatched_lines(empty_slots(), lines), 1),
    decreases lines.len(),
{
    if lines.len() > 0 {
        lemma_complements(lines.drop_last());
    }
}

/// The complement slots of a parsed address hold the first two lines after
/// the name that fill no role, in the order of the lines; every later such
/// line is dropped.
pub proof fn complements_are_first_two_unmatched(u: UnstructuredAddressView)
    ensures
        parse_spec(u) matches Ok(a) ==> a.compl1 == nth_line(unmatched_lines(empty_slots(), body_of(u)), 0)
            && a.compl2 == nth_line(unmatched_lines(empty_slots(), body_of(u)), 1),
{
    lemma_complements(body_of(u));
}

} // verus!
