use address_parser::sql::{
    address_from_row, connection_string, decimal_string, insert_statement, link_update_statement,
    literal_text, select_query,
};
use address_parser::{AddressLine, LinePatterns, ParseError, PostalCode, StructuredAddress};

#[test]
fn select_query_pads_missing_line_columns() {
    let q = select_query("FCF_DEMANDS", "TOP 15 IDDEMAND", &["RECEIVER1", "RECEIVER2"]);
    assert_eq!(
        q,
        "SELECT TOP 15 IDDEMAND, RECEIVER1, RECEIVER2, NULL AS line3, NULL AS line4, NULL AS line5, NULL AS line6 FROM FCF_DEMANDS"
    );
}

#[test]
fn row_fields_are_cleaned() {
    let row: Vec<String> = vec![" 42 ".into(), "  Hans Muster ".into(), "".into(), "   ".into(), "3000 Bern".into()];
    let r = address_from_row(&row);
    assert_eq!(r.id, "42");
    assert_eq!(
        r.lines,
        [Some("Hans Muster".to_string()), None, None, Some("3000 Bern".to_string()), None, None]
    );
}

#[test]
fn empty_row_gives_a_record_that_is_rejected() {
    let r = address_from_row(&Vec::new());
    assert_eq!(r.id, "");
    let patterns = LinePatterns::new();
    assert_eq!(StructuredAddress::parse(&r, &patterns), Err(ParseError::MissingIdentifier));
}

#[test]
fn literals_are_quoted_and_escaped() {
    assert_eq!(literal_text(Some("O'Brien")), "'O''Brien'");
    assert_eq!(literal_text(Some("")), "''");
    assert_eq!(literal_text(None), "NULL");
}

#[test]
fn decimal_numbers() {
    assert_eq!(decimal_string(0), "0");
    assert_eq!(decimal_string(8001), "8001");
    assert_eq!(decimal_string(65535), "65535");
}

#[test]
fn insert_statement_for_a_street_address() {
    let a = StructuredAddress {
        id: "42".to_string(),
        title: Some("HERR".to_string()),
        name: Some("Hans Müller".to_string()),
        lastname: Some("Hans".to_string()),
        firstname: Some("Müller".to_string()),
        compl1: Some("c/o D'Arc".to_string()),
        compl2: None,
        address: AddressLine::Street { street: "Bahnhofstrasse".to_string(), house_number: "12".to_string() },
        postal: PostalCode { code: 8001, suffix: None },
        city: "Zürich".to_string(),
        country: "CH".to_string(),
    };
    let q = insert_statement("Addresses_TEMP", &a);
    let expected = "INSERT INTO Addresses_TEMP (ID_FPR_PAYREL, FPR_PAYEMENT_DOMAIN, FPR_ACCOUNT_OWNER_NAME, FPR_ACCOUNT_OWNER_ADRESS_LINE1, FPR_ACCOUNT_OWNER_ADRESS_LINE2, FPR_STREET, FPR_BUILDING_NUMBER, FPR_POST_CODE, FPR_TOWN_NAME, FPR_ACCOUNT_OWNER_ADDRESS_COUNTRY, FPR_ACCOUNT_TYPE, FPR_ACCOUNT_NO, FPR_CURRENCY, FPR_PAYMENT_POOL, FPR_ACCOUNT_NO_REF, FPR_VALIDITY_START, FPR_VALIDITY_END, FPR_STATE, FPR_SOURCE, FPR_VALID, FPR_USR_LOG_I, FPR_DTE_LOG_I, FPR_USR_LOG_U, FPR_DTE_LOG_U, OLD_TBL_ID, OLD_ID_ADRESSE, RIP_PERSON_ID, RIP_PERSON_BPC_ID, PAC_PAYEMENT_ADRESS_ID, PAC_VERSION_ADR) SELECT ISNULL(MAX(t.ID_FPR_PAYREL),0)+1, 'FCF', 'Hans Müller', 'c/o D''Arc', NULL, 'Bahnhofstrasse', '12', 8001, 'Zürich', 'CH', 'TRAN_CH', 'CH00', 'CHF', 0, NULL, GETDATE(), NULL, 'ACTIVE', 'OTH', 1, 'FORMAT', GETDATE(), 'FORMAT', GETDATE(), 42, NULL, 0, 0, NULL, NULL FROM Addresses_TEMP AS t";
    assert_eq!(q, expected);
}

#[test]
fn insert_statement_for_a_po_box_has_no_street() {
    let a = StructuredAddress {
        id: "7".to_string(),
        title: None,
        name: Some("Dupont ".to_string()),
        lastname: Some("Dupont".to_string()),
        firstname: Some(String::new()),
        compl1: None,
        compl2: None,
        address: AddressLine::PoBox { box_number: "55".to_string() },
        postal: PostalCode { code: 1000, suffix: None },
        city: "Lausanne".to_string(),
        country: "CH".to_string(),
    };
    let q = insert_statement("T", &a);
    assert!(q.contains("'Dupont ', NULL, NULL, NULL, NULL, 1000, 'Lausanne', 'CH'"));
}

#[test]
fn link_update_statement_text() {
    let q = link_update_statement("FCF_TEMP_DEMANDS", "IDDEMAND", "PAY_ADDR_ID", "Addresses_TEMP", "ID_FPR_PAYREL", "OLD_TBL_ID", "42");
    assert_eq!(
        q,
        "UPDATE FCF_TEMP_DEMANDS SET PAY_ADDR_ID = ( SELECT ad.ID_FPR_PAYREL FROM Addresses_TEMP ad WHERE ad.OLD_TBL_ID = '42' ) WHERE IDDEMAND = '42'"
    );
}

#[test]
fn connection_string_text() {
    let c = connection_string("db.local", "1433", "main", "reader", "secret");
    assert_eq!(
        c,
        "Driver={ODBC Driver 18 for SQL Server};Server=db.local,1433;Database=main;UID=reader;PWD=secret;TrustServerCertificate=Yes;"
    );
}
