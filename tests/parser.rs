use address_parser::lines::LineMatch;
use address_parser::parser::LineSlots;
use address_parser::parser::split_name;
use address_parser::lines::postal_code_from_groups;
use address_parser::patterns::house_number_ok;
use address_parser::lines::locality_line;
use address_parser::{
    clean, AddressLine, LinePatterns, ParseError, PostalCode, StructuredAddress,
    UnstructuredAddress,
};

fn record(id: &str, lines: &[&str]) -> UnstructuredAddress {
    let mut slots: [Option<String>; 6] = Default::default();
    for (k, l) in lines.iter().enumerate() {
        slots[k] = Some(l.to_string());
    }
    UnstructuredAddress { id: id.to_string(), lines: slots }
}

fn parse(raw: &UnstructuredAddress) -> Result<StructuredAddress, ParseError> {
    let patterns = LinePatterns::new();
    StructuredAddress::parse(raw, &patterns)
}

fn s(t: &str) -> Option<String> {
    Some(t.to_string())
}

fn street(st: &str, nr: &str) -> AddressLine {
    AddressLine::Street { street: st.to_string(), house_number: nr.to_string() }
}

#[test]
fn patterns_compile() {
    let p = LinePatterns::new();
    assert!(StructuredAddress::parse(&record("1", &["HERR"]), &p).is_ok());
}

#[test]
fn title_line_street_and_locality() {
    let a = parse(&record("42", &["HERR", "Hans Müller", "Bahnhofstrasse 12", "8001 Zürich"])).unwrap();
    assert_eq!(a.id, "42");
    assert_eq!(a.title, s("HERR"));
    assert_eq!(a.lastname, s("Hans"));
    assert_eq!(a.firstname, s("Müller"));
    assert_eq!(a.name, s("Hans Müller"));
    assert_eq!(a.address, street("Bahnhofstrasse", "12"));
    assert_eq!(a.postal, PostalCode { code: 8001, suffix: None });
    assert_eq!(a.city, "Zürich");
    assert_eq!(a.country, "CH");
    assert_eq!(a.compl1, None);
    assert_eq!(a.compl2, None);
}

#[test]
fn inline_title_and_po_box() {
    let a = parse(&record("7", &["M Dupont", "Case Postale 55", "1000 Lausanne"])).unwrap();
    assert_eq!(a.title, s("M"));
    assert_eq!(a.lastname, s("Dupont"));
    assert_eq!(a.firstname, s(""));
    assert_eq!(a.address, AddressLine::PoBox { box_number: "55".to_string() });
    assert_eq!(a.postal, PostalCode { code: 1000, suffix: None });
    assert_eq!(a.city, "Lausanne");
}

#[test]
fn unclassified_line_goes_to_first_complement() {
    let a = parse(&record("8", &["Jean Petit", "Rue Neuve 3bis", "c/o Société X", "75001 Paris"])).unwrap();
    assert_eq!(a.title, None);
    assert_eq!(a.lastname, s("Jean"));
    assert_eq!(a.firstname, s("Petit"));
    assert_eq!(a.address, street("Rue Neuve", "3bis"));
    assert_eq!(a.compl1, s("c/o Société X"));
    assert_eq!(a.postal, PostalCode { code: 7500, suffix: Some(1) });
    assert_eq!(a.city, "Paris");
}

#[test]
fn name_only_record_gets_defaults() {
    let a = parse(&record("9", &["Empty Name"])).unwrap();
    assert_eq!(a.address, street("", ""));
    assert_eq!(a.postal, PostalCode { code: 0, suffix: None });
    assert_eq!(a.city, "");
    assert_eq!(a.country, "CH");
    assert_eq!(a.lastname, s("Empty"));
    assert_eq!(a.firstname, s("Name"));
}

#[test]
fn empty_id_is_rejected() {
    let r = parse(&record("", &["Hans Muster", "Dorfstrasse 1", "3000 Bern"]));
    assert_eq!(r, Err(ParseError::MissingIdentifier));
}

#[test]
fn id_is_kept() {
    let a = parse(&record("A-17", &["Hans Muster"])).unwrap();
    assert_eq!(a.id, "A-17");
}

#[test]
fn po_box_number_is_the_numeric_token() {
    let a = parse(&record("1", &["Anna Meier", "Postfach 1234", "3001 Bern"])).unwrap();
    assert_eq!(a.address, AddressLine::PoBox { box_number: "1234".to_string() });
    let b = parse(&record("2", &["Anna Meier", "p.o. box 7"])).unwrap();
    assert_eq!(b.address, AddressLine::PoBox { box_number: "7".to_string() });
}

#[test]
fn po_box_wins_over_street() {
    let a = parse(&record("1", &["Luca Rossi", "Casella Postale 12"])).unwrap();
    assert_eq!(a.address, AddressLine::PoBox { box_number: "12".to_string() });
}

#[test]
fn street_is_trimmed_and_number_keeps_suffixes() {
    let a = parse(&record("1", &["Anna Meier", "  Hauptstrasse   5a  "])).unwrap();
    assert_eq!(a.address, street("Hauptstrasse", "5a"));
    let b = parse(&record("2", &["Anna Meier", "Rue de Lyon 12/3"])).unwrap();
    assert_eq!(b.address, street("Rue de Lyon", "12/3"));
    let c = parse(&record("3", &["Anna Meier", "Via Roma 4TER"])).unwrap();
    assert_eq!(c.address, street("Via Roma", "4TER"));
}

#[test]
fn postal_code_with_suffix() {
    let a = parse(&record("1", &["Anna Meier", "Dorfweg 2", "1234-56 Ville"])).unwrap();
    assert_eq!(a.postal, PostalCode { code: 1234, suffix: Some(56) });
    assert_eq!(a.city, "Ville");
    let b = parse(&record("2", &["Anna Meier", "Dorfweg 2", "0815 Nowhere  "])).unwrap();
    assert_eq!(b.postal, PostalCode { code: 815, suffix: None });
    assert_eq!(b.city, "Nowhere");
}

#[test]
fn postal_code_without_city() {
    let a = parse(&record("1", &["Anna Meier", "Dorfweg 2", "8000"])).unwrap();
    assert_eq!(a.postal, PostalCode { code: 8000, suffix: None });
    assert_eq!(a.city, "");
}

#[test]
fn malformed_postal_code_is_a_complement() {
    let a = parse(&record("1", &["Anna Meier", "Dorfweg 2", "800 Zürich"])).unwrap();
    assert_eq!(a.postal, PostalCode { code: 0, suffix: None });
    assert_eq!(a.city, "");
    assert_eq!(a.compl1, s("800 Zürich"));
}

#[test]
fn country_defaults_to_ch() {
    let a = parse(&record("1", &["Anna Meier", "Dorfweg 2", "1000 Lausanne", "France"])).unwrap();
    assert_eq!(a.country, "CH");
    assert_eq!(a.compl1, s("France"));
}

#[test]
fn third_unclassified_line_is_dropped() {
    let a = parse(&record("1", &["Anna Meier", "c/o Firma", "z.H. Abteilung", "Hinterhaus", "Dorfweg 2", "3000 Bern"])).unwrap();
    assert_eq!(a.compl1, s("c/o Firma"));
    assert_eq!(a.compl2, s("z.H. Abteilung"));
    assert_eq!(a.address, street("Dorfweg", "2"));
    assert_eq!(a.postal, PostalCode { code: 3000, suffix: None });
}

#[test]
fn second_street_line_is_a_complement() {
    let a = parse(&record("1", &["Anna Meier", "Dorfweg 2", "Seeweg 4"])).unwrap();
    assert_eq!(a.address, street("Dorfweg", "2"));
    assert_eq!(a.compl1, s("Seeweg 4"));
}

#[test]
fn parsing_twice_gives_the_same_address() {
    let raw = record("5", &["MME", "Dupont Marie", "Rue Neuve 3", "1200-01 Genève", "Bâtiment B"]);
    assert_eq!(parse(&raw), parse(&raw));
}

#[test]
fn title_line_beats_inline_title() {
    let a = parse(&record("1", &["FRAU", "MME Dupont Marie Claire"])).unwrap();
    assert_eq!(a.title, s("FRAU"));
    assert_eq!(a.lastname, s("Dupont"));
    assert_eq!(a.firstname, s("Marie"));
}

#[test]
fn title_matching_ignores_case_and_spaces() {
    let a = parse(&record("1", &["  herr ", "Muster Max"])).unwrap();
    assert_eq!(a.title, s("  herr "));
    assert_eq!(a.lastname, s("Muster"));
}

#[test]
fn absent_and_empty_lines_are_skipped() {
    let raw = UnstructuredAddress {
        id: "3".to_string(),
        lines: [None, s("Hans Muster"), s(""), None, s("Dorfstrasse 1"), s("3000 Bern")],
    };
    let a = parse(&raw).unwrap();
    assert_eq!(a.lastname, s("Hans"));
    assert_eq!(a.address, street("Dorfstrasse", "1"));
    assert_eq!(a.city, "Bern");
}

#[test]
fn record_without_lines() {
    let a = parse(&record("3", &[])).unwrap();
    assert_eq!(a.title, None);
    assert_eq!(a.lastname, s(""));
    assert_eq!(a.firstname, s(""));
    assert_eq!(a.name, s(" "));
    assert_eq!(a.address, street("", ""));
}

#[test]
fn clean_trims_and_drops_blank_values() {
    assert_eq!(clean(s("  Bern \t")), s("Bern"));
    assert_eq!(clean(s("   ")), None);
    assert_eq!(clean(None), None);
}

#[test]
fn fill_line_follows_the_priority_order() {
    let mut slots = LineSlots::new();
    slots.fill_line(
        "Case Postale 55",
        LineMatch {
            po_box: Some("55".to_string()),
            street: Some(("Case Postale".to_string(), "55".to_string())),
            locality: None,
        },
    );
    assert_eq!(slots.address, Some(AddressLine::PoBox { box_number: "55".to_string() }));
    slots.fill_line(
        "Seeweg 4",
        LineMatch { po_box: None, street: Some(("Seeweg".to_string(), "4".to_string())), locality: None },
    );
    assert_eq!(slots.compl1, s("Seeweg 4"));
    slots.fill_line(
        "3000 Bern",
        LineMatch { po_box: None, street: None, locality: Some((PostalCode { code: 3000, suffix: None }, "Bern".to_string())) },
    );
    assert_eq!(slots.locality, Some((PostalCode { code: 3000, suffix: None }, "Bern".to_string())));
    slots.fill_line("a", LineMatch { po_box: None, street: None, locality: None });
    slots.fill_line("b", LineMatch { po_box: None, street: None, locality: None });
    assert_eq!(slots.compl1, s("Seeweg 4"));
    assert_eq!(slots.compl2, s("a"));
}

#[test]
fn split_name_with_and_without_title() {
    let words: Vec<String> = vec!["MR".into(), "Smith".into(), "John".into(), "Jr".into()];
    assert_eq!(split_name(&words, true), (s("MR"), "Smith".to_string(), "John".to_string()));
    assert_eq!(split_name(&words, false), (None, "MR".to_string(), "Smith".to_string()));
    assert_eq!(split_name(&Vec::new(), false), (None, String::new(), String::new()));
}

#[test]
fn postal_code_from_match_groups() {
    assert_eq!(postal_code_from_groups(&vec![s("1234-56"), s("1234"), s("56")]), Some(PostalCode { code: 1234, suffix: Some(56) }));
    assert_eq!(postal_code_from_groups(&vec![s("0042"), s("0042"), None]), Some(PostalCode { code: 42, suffix: None }));
    assert_eq!(postal_code_from_groups(&vec![s("123"), s("123"), None]), None);
    assert_eq!(postal_code_from_groups(&vec![s("1234x"), s("1234"), s("x")]), None);
    assert_eq!(postal_code_from_groups(&vec![s("1234")]), None);
}

#[test]
fn house_number_grammar() {
    for ok in ["1", "12", "9999", "3bis", "3BIS", "4ter", "7quater", "8quinquies", "5a", "12/3", "12b/45"] {
        assert!(house_number_ok(ok), "{ok}");
    }
    for bad in ["", "0", "012", "12345", "3bi", "3ab", "12/", "12/0", "12/12345", "a1"] {
        assert!(!house_number_ok(bad), "{bad}");
    }
}

#[test]
fn locality_line_splits_at_the_first_space() {
    let p = LinePatterns::new();
    assert_eq!(locality_line(&p, "1200-01 Genève Centre"), Some((PostalCode { code: 1200, suffix: Some(1) }, "Genève Centre".to_string())));
    assert_eq!(locality_line(&p, "Genève 1200"), None);
}

#[test]
fn clean_handles_unicode_white_space_and_is_idempotent() {
    assert_eq!(clean(s("\u{a0}Bern\u{3000}")), s("Bern"));
    assert_eq!(clean(s("\u{2028}\u{85} ")), None);
    let once = clean(s("  Genève  Centre \n"));
    assert_eq!(once, s("Genève  Centre"));
    assert_eq!(clean(once.clone()), once);
}

#[test]
fn complements_are_the_first_two_unmatched_lines_in_order() {
    let a = parse(&record("1", &["Anna Meier", "Etage ohne Nummer", "Dorfweg 2", "Hinterhaus", "3000 Bern", "Seitentür"])).unwrap();
    assert_eq!(a.compl1, s("Etage ohne Nummer"));
    assert_eq!(a.compl2, s("Hinterhaus"));
    assert_eq!(a.address, street("Dorfweg", "2"));
    assert_eq!(a.city, "Bern");
}

#[test]
fn name_words_split_on_any_white_space() {
    let a = parse(&record("1", &["Muster\u{a0}\tMax  Peter"])).unwrap();
    assert_eq!(a.lastname, s("Muster"));
    assert_eq!(a.firstname, s("Max"));
}
