//! The text of the statements that read raw records and store structured
//! ones, and the mapping from a fetched row to a raw record.

use vstd::prelude::*;
use crate::text::{texts, opt_text, trimmed, trim_text, clean, clean_spec};
use crate::address::{UnstructuredAddress, UnstructuredAddressView, StructuredAddress, StructuredAddressView, AddressLineView, AddressLine};

verus! {

/// The pieces written one after another.
pub open spec fn concat(ps: Seq<Seq<char>>) -> Seq<char>
    decreases ps.len(),
{
    if ps.len() == 0 {
        Seq::empty()
    } else {
        concat(ps.drop_last()) + ps.last()
    }
}

/// The items written one after another with `sep` between two of them.
pub open spec fn join(items: Seq<Seq<char>>, sep: Seq<char>) -> Seq<char>
    decreases items.len(),
{
    if items.len() == 0 {
        Seq::empty()
    } else if items.len() == 1 {
        items[0]
    } else {
        join(items.drop_last(), sep) + sep + items.last()
    }
}

/// Writes the pieces one after another.
pub fn concat_all(ps: &Vec<String>) -> (r: String)
    ensures
        r@ == concat(texts(ps@)),
{
    let mut out = String::new();
    let mut i: usize = 0;
    while i < ps.len()
        invariant
            i <= ps.len(),
            out@ == concat(texts(ps@).take(i as int)),
        decreases ps.len() - i,
    {
        proof {
            assert(texts(ps@).take(i + 1).drop_last() =~= texts(ps@).take(i as int));
        }
        out.append(ps[i].as_str());
        i = i + 1;
    }
    assert(texts(ps@).take(ps.len() as int) =~= texts(ps@));
    out
}

/// Writes the items one after another with `sep` between two of them.
pub fn join_all(items: &Vec<String>, sep: &str) -> (r: String)
    ensures
        r@ == join(texts(items@), sep@),
{
    let mut out = String::new();
    let mut i: usize = 0;
    while i < items.len()
        invariant
            i <= items.len(),
            out@ == join(texts(items@).take(i as int), sep@),
        decreases items.len() - i,
    {
        proof {
            assert(texts(items@).take(i + 1).drop_last() =~= texts(items@).take(i as int));
        }
        if i > 0 {
            out.append(sep);
        }
        out.append(items[i].as_str());
        i = i + 1;
    }
    assert(texts(items@).take(items.len() as int) =~= texts(items@));
    out
}

/// `s` with each single quote doubled, as SQL writes it inside quotes.
pub open spec fn escape_quotes(s: Seq<char>) -> Seq<char>
    decreases s.len(),
{
    if s.len() == 0 {
        Seq::empty()
    } else if s.last() == '\'' {
        escape_quotes(s.drop_last()) + "''"@
    } else {
        escape_quotes(s.drop_last()).push(s.last())
    }
}

/// A text as an SQL literal: `NULL` where absent, else quoted.
pub open spec fn sql_literal(v: Option<Seq<char>>) -> Seq<char> {
    match v {
        Some(s) => "'"@ + escape_quotes(s) + "'"@,
        None => "NULL"@,
    }
}

/// Doubles each single quote of `s`.
pub fn escape_text(s: &str) -> (r: String)
    ensures
        r@ == escape_quotes(s@),
{
    let n = s.unicode_len();
    let mut out = String::new();
    let mut i: usize = 0;
    while i < n
        invariant
            n == s@.len(),
            i <= n,
            out@ == escape_quotes(s@.take(i as int)),
        decreases n - i,
    {
        proof {
            assert(s@.take(i + 1).drop_last() =~= s@.take(i as int));
        }
        if s.get_char(i) == '\'' {
            out.append("''");
        } else {
            let ghost before = out@;
            out.append(s.substring_char(i, i + 1));
            assert(out@ =~= before.push(s@[i as int]));
        }
        i = i + 1;
    }
    assert(s@.take(n as int) =~= s@);
    out
}

/// Writes a text as an SQL literal.
pub fn literal_text(v: Option<&str>) -> (r: String)
    ensures
        r@ == sql_literal(
            match v {
                Some(s) => Some(s@),
                None => None,
            },
        ),
{
    match v {
        Some(s) => {
            let mut out = String::from_str("'");
            let e = escape_text(s);
            out.append(e.as_str());
            out.append("'");
            out
        },
        None => String::from_str("NULL"),
    }
}

/// The character of one decimal digit.
pub open spec fn digit_text(d: nat) -> Seq<char> {
    if d == 0 {
        "0"@
    } else if d == 1 {
        "1"@
    } else if d == 2 {
        "2"@
    } else if d == 3 {
        "3"@
    } else if d == 4 {
        "4"@
    } else if d == 5 {
        "5"@
    } else if d == 6 {
        "6"@
    } else if d == 7 {
        "7"@
    } else if d == 8 {
        "8"@
    } else {
        "9"@
    }
}

/// A number written in decimal, without leading zeros.
pub open spec fn decimal_text(n: nat) -> Seq<char>
    decreases n,
{
    if n < 10 {
        digit_text(n)
    } else {
        decimal_text(n / 10) + digit_text(n % 10)
    }
}

/// Writes one decimal digit.
fn digit_str(d: u16) -> (r: &'static str)
    requires
        d < 10,
    ensures
        r@ == digit_text(d as nat),
{
    if d == 0 {
        "0"
    } else if d == 1 {
        "1"
    } else if d == 2 {
        "2"
    } else if d == 3 {
        "3"
    } else if d == 4 {
        "4"
    } else if d == 5 {
        "5"
    } else if d == 6 {
        "6"
    } else if d == 7 {
        "7"
    } else if d == 8 {
        "8"
    } else {
        "9"
    }
}

/// Writes a number in decimal.
pub fn decimal_string(n: u16) -> (r: String)
    ensures
        r@ == decimal_text(n as nat),
    decreases n,
{
    if n < 10 {
        String::from_str(digit_str(n))
    } else {
        let mut s = decimal_string(n / 10);
        s.append(digit_str(n % 10));
        s
    }
}

/// The columns a raw-record query selects: the identifier, then six line
/// columns, padded with `NULL` columns where fewer are named.
pub open spec fn select_items(col_id: Seq<char>, cols: Seq<Seq<char>>) -> Seq<Seq<char>> {
    seq![col_id] + Seq::new(
        6,
        |k: int|
            if k < cols.len() {
                cols[k]
            } else {
                "NULL AS line"@ + digit_text((k + 1) as nat)
            },
    )
}

/// The query that reads raw records from `table`.
pub open spec fn select_query_text(table: Seq<char>, col_id: Seq<char>, cols: Seq<Seq<char>>) -> Seq<
    char,
> {
    "SELECT "@ + join(select_items(col_id, cols), ", "@) + " FROM "@ + table
}

/// The texts of a list of string slices.
pub open spec fn str_texts(v: Seq<&str>) -> Seq<Seq<char>> {
    v.map_values(|t: &str| t@)
}

/// Writes the query that reads raw records: the identifier column and the
/// line columns of `table`.
pub fn select_query(table: &str, col_id: &str, col_lines: &[&str]) -> (r: String)
    ensures
        r@ == select_query_text(table@, col_id@, str_texts(col_lines@)),
{
    let mut items: Vec<String> = Vec::new();
    items.push(col_id.to_string());
    let mut k: usize = 0;
    while k < 6
        invariant
            k <= 6,
            texts(items@) == select_items(col_id@, str_texts(col_lines@)).take(k + 1),
        decreases 6 - k,
    {
        let ghost want = select_items(col_id@, str_texts(col_lines@));
        let ghost before = texts(items@);
        let piece: String;
        if k < col_lines.len() {
            piece = col_lines[k].to_string();
            assert(piece@ == str_texts(col_lines@)[k as int]);
        } else {
            let mut pad = String::from_str("NULL AS line");
            pad.append(digit_str((k + 1) as u16));
            piece = pad;
        }
        assert(piece@ == want[k + 1]);
        items.push(piece);
        assert(texts(items@) =~= before.push(piece@));
        assert(want.take(k + 2) =~= want.take(k + 1).push(want[k + 1]));
        k = k + 1;
    }
    assert(texts(items@) =~= select_items(col_id@, str_texts(col_lines@)));
    let mut q = String::from_str("SELECT ");
    let list = join_all(&items, ", ");
    q.append(list.as_str());
    q.append(" FROM ");
    q.append(table);
    q
}

/// Field `k` of a fetched row, where the row has one.
pub open spec fn row_field(row: Seq<Seq<char>>, k: int) -> Option<Seq<char>> {
    if 0 <= k < row.len() {
        Some(row[k])
    } else {
        None
    }
}

/// The raw record a fetched row holds: the trimmed identifier (empty where
/// the row has no field), then the cleaned six line fields.
pub open spec fn row_address(row: Seq<Seq<char>>) -> UnstructuredAddressView {
    UnstructuredAddressView {
        id: match row_field(row, 0) {
            Some(t) => trimmed(t),
            None => Seq::empty(),
        },
        lines: Seq::new(6, |k: int| clean_spec(row_field(row, k + 1))),
    }
}

/// Field `k` of a fetched row, copied out.
fn field_at(row: &Vec<String>, k: usize) -> (r: Option<String>)
    ensures
        opt_text(r) == row_field(texts(row@), k as int),
{
    if k < row.len() {
        Some(row[k].clone())
    } else {
        None
    }
}

/// The raw record that a fetched row holds.
pub fn address_from_row(row: &Vec<String>) -> (r: UnstructuredAddress)
    ensures
        r@ == row_address(texts(row@)),
{
    let id = match field_at(row, 0) {
        Some(t) => trim_text(t.as_str()),
        None => String::new(),
    };
    let l1 = clean(field_at(row, 1));
    let l2 = clean(field_at(row, 2));
    let l3 = clean(field_at(row, 3));
    let l4 = clean(field_at(row, 4));
    let l5 = clean(field_at(row, 5));
    let l6 = clean(field_at(row, 6));
    let r = UnstructuredAddress { id, lines: [l1, l2, l3, l4, l5, l6] };
    assert(r@.lines =~= row_address(texts(row@)).lines);
    r
}

/// The columns an address is stored in.
pub const INSERT_COLUMNS: &'static str = "(ID_FPR_PAYREL, FPR_PAYEMENT_DOMAIN, FPR_ACCOUNT_OWNER_NAME, FPR_ACCOUNT_OWNER_ADRESS_LINE1, FPR_ACCOUNT_OWNER_ADRESS_LINE2, FPR_STREET, FPR_BUILDING_NUMBER, FPR_POST_CODE, FPR_TOWN_NAME, FPR_ACCOUNT_OWNER_ADDRESS_COUNTRY, FPR_ACCOUNT_TYPE, FPR_ACCOUNT_NO, FPR_CURRENCY, FPR_PAYMENT_POOL, FPR_ACCOUNT_NO_REF, FPR_VALIDITY_START, FPR_VALIDITY_END, FPR_STATE, FPR_SOURCE, FPR_VALID, FPR_USR_LOG_I, FPR_DTE_LOG_I, FPR_USR_LOG_U, FPR_DTE_LOG_U, OLD_TBL_ID, OLD_ID_ADRESSE, RIP_PERSON_ID, RIP_PERSON_BPC_ID, PAC_PAYEMENT_ADRESS_ID, PAC_VERSION_ADR)";

/// The street and house number of an address, both absent for a
/// post-office box.
pub open spec fn street_parts(a: AddressLineView) -> (Option<Seq<char>>, Option<Seq<char>>) {
    match a {
        AddressLineView::Street { street, house_number } => (Some(street), Some(house_number)),
        AddressLineView::PoBox { .. } => (None, None),
    }
}

/// The values stored for an address, one for each of the columns above;
/// the identifier of the source record is written as it stands.
pub open spec fn insert_values(a: StructuredAddressView) -> Seq<Seq<char>> {
    seq![
        "ISNULL(MAX(t.ID_FPR_PAYREL),0)+1"@,
        "'FCF'"@,
        sql_literal(a.name),
        sql_literal(a.compl1),
        sql_literal(a.compl2),
        sql_literal(street_parts(a.address).0),
        sql_literal(street_parts(a.address).1),
        decimal_text(a.postal.code as nat),
        sql_literal(Some(a.city)),
        sql_literal(Some(a.country)),
        "'TRAN_CH'"@,
        "'CH00'"@,
        "'CHF'"@,
        "0"@,
        "NULL"@,
        "GETDATE()"@,
        "NULL"@,
        "'ACTIVE'"@,
        "'OTH'"@,
        "1"@,
        "'FORMAT'"@,
        "GETDATE()"@,
        "'FORMAT'"@,
        "GETDATE()"@,
        a.id,
        "NULL"@,
        "0"@,
        "0"@,
        "NULL"@,
        "NULL"@,
    ]
}

/// The statement that stores an address in `table`; the new key is one
/// more than the largest key there.
pub open spec fn insert_statement_text(table: Seq<char>, a: StructuredAddressView) -> Seq<char> {
    "INSERT INTO "@ + table + " "@ + INSERT_COLUMNS@ + " SELECT "@ + join(insert_values(a), ", "@)
        + " FROM "@ + table + " AS t"@
}

/// Writes an optional text as an SQL literal.
fn opt_literal(v: &Option<String>) -> (r: String)
    ensures
        r@ == sql_literal(opt_text(*v)),
{
    match v {
        Some(s) => literal_text(Some(s.as_str())),
        None => literal_text(None),
    }
}

/// Writes the statement that stores `a` in `table`.
pub fn insert_statement(table: &str, a: &StructuredAddress) -> (r: String)
    ensures
        r@ == insert_statement_text(table@, a@),
{
    let (street, house_number) = match &a.address {
        AddressLine::Street { street, house_number } => (Some(street.as_str()), Some(
            house_number.as_str(),
        )),
        AddressLine::PoBox { .. } => (None, None),
    };
    let mut v: Vec<String> = Vec::new();
    v.push(String::from_str("ISNULL(MAX(t.ID_FPR_PAYREL),0)+1"));
    v.push(String::from_str("'FCF'"));
    v.push(opt_literal(&a.name));
    v.push(opt_literal(&a.compl1));
    v.push(opt_literal(&a.compl2));
    v.push(literal_text(street));
    v.push(literal_text(house_number));
    v.push(decimal_string(a.postal.code));
    v.push(literal_text(Some(a.city.as_str())));
    v.push(literal_text(Some(a.country.as_str())));
    v.push(String::from_str("'TRAN_CH'"));
    v.push(String::from_str("'CH00'"));
    v.push(String::from_str("'CHF'"));
    v.push(String::from_str("0"));
    v.push(String::from_str("NULL"));
    v.push(String::from_str("GETDATE()"));
    v.push(String::from_str("NULL"));
    v.push(String::from_str("'ACTIVE'"));
    v.push(String::from_str("'OTH'"));
    v.push(String::from_str("1"));
    v.push(String::from_str("'FORMAT'"));
    v.push(String::from_str("GETDATE()"));
    v.push(String::from_str("'FORMAT'"));
    v.push(String::from_str("GETDATE()"));
    v.push(a.id.clone());
    v.push(String::from_str("NULL"));
    v.push(String::from_str("0"));
    v.push(String::from_str("0"));
    v.push(String::from_str("NULL"));
    v.push(String::from_str("NULL"));
    assert(texts(v@) =~= insert_values(a@));
    let list = join_all(&v, ", ");
    let mut q = String::from_str("INSERT INTO ");
    q.append(table);
    q.append(" ");
    q.append(INSERT_COLUMNS);
    q.append(" SELECT ");
    q.append(list.as_str());
    q.append(" FROM ");
    q.append(table);
    q.append(" AS t");
    q
}

/// The statement that sets, in the rows of `table` whose `id_field` is
/// `ref_main_id`, the column `id_ref_field` to the `ref_id_field` of the row
/// of `ref_table` whose `ref_link_field` is `ref_main_id`.
pub open spec fn link_update_text(
    table: Seq<char>,
    id_field: Seq<char>,
    id_ref_field: Seq<char>,
    ref_table: Seq<char>,
    ref_id_field: Seq<char>,
    ref_link_field: Seq<char>,
    ref_main_id: Seq<char>,
) -> Seq<char> {
    "UPDATE "@ + table + " SET "@ + id_ref_field + " = ( SELECT ad."@ + ref_id_field + " FROM "@
        + ref_table + " ad WHERE ad."@ + ref_link_field + " = "@ + sql_literal(Some(ref_main_id))
        + " ) WHERE "@ + id_field + " = "@ + sql_literal(Some(ref_main_id))
}

/// Writes the statement that links the rows of `table` with identifier
/// `ref_main_id` to the stored address of that identifier.
pub fn link_update_statement(
    table: &str,
    id_field: &str,
    id_ref_field: &str,
    ref_table: &str,
    ref_id_field: &str,
    ref_link_field: &str,
    ref_main_id: &str,
) -> (r: String)
    ensures
        r@ == link_update_text(
            table@,
            id_field@,
            id_ref_field@,
            ref_table@,
            ref_id_field@,
            ref_link_field@,
            ref_main_id@,
        ),
{
    let key = literal_text(Some(ref_main_id));
    let mut q = String::from_str("UPDATE ");
    q.append(table);
    q.append(" SET ");
    q.append(id_ref_field);
    q.append(" = ( SELECT ad.");
    q.append(ref_id_field);
    q.append(" FROM ");
    q.append(ref_table);
    q.append(" ad WHERE ad.");
    q.append(ref_link_field);
    q.append(" = ");
    q.append(key.as_str());
    q.append(" ) WHERE ");
    q.append(id_field);
    q.append(" = ");
    q.append(key.as_str());
    q
}

/// The connection string for a database server.
pub open spec fn connection_text(
    server: Seq<char>,
    port: Seq<char>,
    name: Seq<char>,
    user: Seq<char>,
    pwd: Seq<char>,
) -> Seq<char> {
    "Driver={ODBC Driver 18 for SQL Server};Server="@ + server + ","@ + port + ";Database="@ + name
        + ";UID="@ + user + ";PWD="@ + pwd + ";TrustServerCertificate=Yes;"@
}

/// Writes the connection string for database `name` on `server`:`port`,
/// logging in as `user`.
pub fn connection_string(server: &str, port: &str, name: &str, user: &str, pwd: &str) -> (r: String)
    ensures
        r@ == connection_text(server@, port@, name@, user@, pwd@),
{
    let mut c = String::from_str("Driver={ODBC Driver 18 for SQL Server};Server=");
    c.append(server);
    c.append(",");
    c.append(port);
    c.append(";Database=");
    c.append(name);
    c.append(";UID=");
    c.append(user);
    c.append(";PWD=");
    c.append(pwd);
    c.append(";TrustServerCertificate=Yes;");
    c
}

} // verus!
