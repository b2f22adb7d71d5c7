//! Catalog queries about tables and routines, and the decisions taken on
//! the rows they return.

use vstd::prelude::*;
use vstd::string::*;
use crate::identifier::{check_object_names, is_valid_name, NameError};

verus! {

/// An SQL statement with the texts bound to its `?` markers, in order.
pub struct CatalogQuery {
    pub sql: String,
    pub params: Vec<String>,
}

/// The views of a query's parameters.
pub open spec fn param_views(q: CatalogQuery) -> Seq<Seq<char>> {
    q.params@.map_values(|p: String| p@)
}

/// The two parameters `schema`, `name`.
fn schema_and_name(schema: &str, name: &str) -> (r: Vec<String>)
    ensures
        r@.map_values(|p: String| p@) == seq![schema@, name@],
{
    let mut r: Vec<String> = Vec::new();
    r.push(schema.to_owned());
    r.push(name.to_owned());
    assert(r@.map_values(|p: String| p@) =~= seq![schema@, name@]);
    r
}

/// A character with ASCII upper-case letters mapped to lower case.
pub open spec fn ascii_lower_char(c: char) -> char {
    if 'A' <= c <= 'Z' {
        ((c as u32) + 32) as char
    } else {
        c
    }
}

/// `str::to_ascii_lowercase`: ASCII upper-case letters lowered, every
/// other character kept.
pub open spec fn ascii_lower(s: Seq<char>) -> Seq<char> {
    s.map_values(|c: char| ascii_lower_char(c))
}

/// The text with its ASCII upper-case letters lowered.
pub fn to_ascii_lower(s: &str) -> (r: String)
    ensures
        r@ == ascii_lower(s@),
{
    let mut r = String::new();
    for c in it: s.chars()
        invariant
            it.seq() == s@,
            r@ == ascii_lower(s@.take(it.index() as int)),
    {
        let lc = if 'A' <= c && c <= 'Z' {
            ((c as u32) + 32) as u8 as char
        } else {
            c
        };
        assert(lc == ascii_lower_char(c));
        r.push(lc);
        assert(ascii_lower(s@.take(it.index() + 1)) =~= ascii_lower(s@.take(it.index() as int)).push(
            ascii_lower_char(s@[it.index() as int]),
        ));
    }
    assert(s@.take(s@.len() as int) =~= s@);
    r
}

/// The statement that reads a table's status code from `syscat.tables`.
pub open spec fn table_status_sql() -> Seq<char> {
    "SELECT CASE WHEN status = 'N' THEN 0 WHEN status = 'C' THEN -1 WHEN status = 'X' THEN -2 ELSE -3 END FROM syscat.tables WHERE LOWER(tabschema) = ? AND LOWER(tabname) = ? FOR READ ONLY;"@
}

/// The query for a table's status code (0 normal, -1 set-integrity
/// pending, -2 inoperative, -3 unknown), after both names are checked.
/// The statement compares the lower-cased catalog names, so the names are
/// bound lower-cased: the table is found whatever the letter case given.
pub fn table_status_query(tabschema: &str, tabname: &str) -> (r: Result<CatalogQuery, NameError>)
    ensures
        r is Ok <==> is_valid_name(tabschema@) && is_valid_name(tabname@),
        !is_valid_name(tabschema@) ==> (r matches Err(NameError::IllegalSchema(s)) && s@
            == tabschema@),
        is_valid_name(tabschema@) && !is_valid_name(tabname@) ==> (r matches Err(
            NameError::IllegalName(s),
        ) && s@ == tabname@),
        r matches Ok(q) ==> q.sql@ == table_status_sql() && param_views(q) == seq![
            ascii_lower(tabschema@),
            ascii_lower(tabname@),
        ],
{
    match check_object_names(tabschema, tabname) {
        Err(e) => Err(e),
        Ok(()) => {
            let sql = "SELECT CASE WHEN status = 'N' THEN 0 WHEN status = 'C' THEN -1 WHEN status = 'X' THEN -2 ELSE -3 END FROM syscat.tables WHERE LOWER(tabschema) = ? AND LOWER(tabname) = ? FOR READ ONLY;".to_owned();
            let schema = to_ascii_lower(tabschema);
            let name = to_ascii_lower(tabname);
            Ok(CatalogQuery { sql, params: schema_and_name(schema.as_str(), name.as_str()) })
        },
    }
}

/// The statement that counts the rows of `schema.name`.
pub open spec fn row_count_sql(schema: Seq<char>, name: Seq<char>) -> Seq<char> {
    "SELECT COUNT(*) FROM "@ + schema + "."@ + name + " FOR READ ONLY"@
}

/// The query that counts a table's rows, after both names are checked;
/// the names are part of the statement and nothing is bound.
pub fn row_count_query(tabschema: &str, tabname: &str) -> (r: Result<CatalogQuery, NameError>)
    ensures
        r is Ok <==> is_valid_name(tabschema@) && is_valid_name(tabname@),
        !is_valid_name(tabschema@) ==> (r matches Err(NameError::IllegalSchema(s)) && s@
            == tabschema@),
        is_valid_name(tabschema@) && !is_valid_name(tabname@) ==> (r matches Err(
            NameError::IllegalName(s),
        ) && s@ == tabname@),
        r matches Ok(q) ==> q.sql@ == row_count_sql(tabschema@, tabname@) && q.params@.len()
            == 0,
{
    match check_object_names(tabschema, tabname) {
        Err(e) => Err(e),
        Ok(()) => {
            let mut sql = "SELECT COUNT(*) FROM ".to_owned();
            sql.append(tabschema);
            sql.append(".");
            sql.append(tabname);
            sql.append(" FOR READ ONLY");
            Ok(CatalogQuery { sql, params: Vec::new() })
        },
    }
}

/// The statement that counts functions (`is_udf`) or procedures of a name.
pub open spec fn routine_count_sql(is_udf: bool) -> Seq<char> {
    if is_udf {
        "SELECT COUNT(*) FROM syscat.functions WHERE funcschema = UPPER(?) AND funcname = UPPER(?) FOR READ ONLY"@
    } else {
        "SELECT COUNT(*) FROM syscat.procedures WHERE procschema = UPPER(?) AND procname = UPPER(?) FOR READ ONLY"@
    }
}

/// The query that counts the user-defined functions (`is_udf`) or the
/// stored procedures with a schema and a name, after both are checked.
pub fn routine_count_query(schema: &str, name: &str, is_udf: bool) -> (r: Result<
    CatalogQuery,
    NameError,
>)
    ensures
        r is Ok <==> is_valid_name(schema@) && is_valid_name(name@),
        !is_valid_name(schema@) ==> (r matches Err(NameError::IllegalSchema(s)) && s@ == schema@),
        is_valid_name(schema@) && !is_valid_name(name@) ==> (r matches Err(
            NameError::IllegalName(s),
        ) && s@ == name@),
        r matches Ok(q) ==> q.sql@ == routine_count_sql(is_udf) && param_views(q) == seq![
            schema@,
            name@,
        ],
{
    match check_object_names(schema, name) {
        Err(e) => Err(e),
        Ok(()) => {
            let sql = if is_udf {
                "SELECT COUNT(*) FROM syscat.functions WHERE funcschema = UPPER(?) AND funcname = UPPER(?) FOR READ ONLY".to_owned()
            } else {
                "SELECT COUNT(*) FROM syscat.procedures WHERE procschema = UPPER(?) AND procname = UPPER(?) FOR READ ONLY".to_owned()
            };
            Ok(CatalogQuery { sql, params: schema_and_name(schema, name) })
        },
    }
}

/// The statement that counts the tables with a schema and a name.
pub open spec fn table_count_sql() -> Seq<char> {
    "SELECT COUNT(1) FROM syscat.tables WHERE tabschema = UPPER(?) AND tabname = UPPER(?) FOR READ ONLY"@
}

/// The query that counts the tables with a schema and a name; both are
/// bound as parameters, so they are not checked.
pub fn table_count_query(tabschema: &str, tabname: &str) -> (r: CatalogQuery)
    ensures
        r.sql@ == table_count_sql(),
        param_views(r) == seq![tabschema@, tabname@],
{
    let sql = "SELECT COUNT(1) FROM syscat.tables WHERE tabschema = UPPER(?) AND tabname = UPPER(?) FOR READ ONLY".to_owned();
    CatalogQuery { sql, params: schema_and_name(tabschema, tabname) }
}

/// The last non-null value among the rows, if any.
pub open spec fn last_value(rows: Seq<Option<i32>>) -> Option<i32>
    decreases rows.len(),
{
    if rows.len() == 0 {
        None
    } else {
        match rows.last() {
            Some(v) => Some(v),
            None => last_value(rows.drop_last()),
        }
    }
}

/// The status code the rows of the status query give: the last non-null
/// value, or -3 (unknown) when no row carries one, as for a table the
/// catalog does not hold.
pub open spec fn status_code_of(rows: Seq<Option<i32>>) -> i32 {
    match last_value(rows) {
        Some(v) => v,
        None => -3i32,
    }
}

/// The status code from the values of the status query's rows, in order:
/// the last non-null value, or -3 (unknown) when there is none.
pub fn status_from_rows(rows: &Vec<Option<i32>>) -> (r: i32)
    ensures
        r == status_code_of(rows@),
{
    let mut found: Option<i32> = None;
    let n = rows.len();
    for i in 0..n
        invariant
            n == rows@.len(),
            found == last_value(rows@.take(i as int)),
    {
        assert(rows@.take(i + 1).drop_last() =~= rows@.take(i as int));
        assert(rows@.take(i + 1).last() == rows@[i as int]);
        if let Some(v) = rows[i] {
            found = Some(v);
        }
    }
    assert(rows@.take(n as int) =~= rows@);
    match found {
        Some(v) => v,
        None => -3,
    }
}

/// How the status rows give the code: no rows give -3 (unknown), a row
/// with a value gives that value whatever came before, and a row without
/// a value changes nothing.
pub proof fn status_rows_law(rows: Seq<Option<i32>>, v: i32)
    ensures
        status_code_of(Seq::<Option<i32>>::empty()) == -3,
        status_code_of(rows.push(Some(v))) == v,
        status_code_of(rows.push(None)) == status_code_of(rows),
{
    assert(rows.push(Some(v)).drop_last() =~= rows);
    assert(rows.push(None).drop_last() =~= rows);
}

/// Whether the first row of a count says zero; no row or a null count
/// says nothing.
pub fn count_is_zero(count: Option<i32>) -> (r: bool)
    ensures
        r == (count == Some(0i32)),
{
    match count {
        Some(v) => v == 0,
        None => false,
    }
}

/// Whether the first row of a count says something other than zero; no
/// row or a null count says nothing.
pub fn count_is_nonzero(count: Option<i32>) -> (r: bool)
    ensures
        r == (count matches Some(v) && v != 0),
{
    match count {
        Some(v) => v != 0,
        None => false,
    }
}

/// A table's status as the status query codes it.
#[derive(PartialEq, Eq, Structural, Clone, Copy, Debug)]
pub enum TableStatus {
    Normal,
    SetIntegrityPending,
    Inoperative,
    Unknown,
}

/// The status a code stands for: 0, -1 and -2 name theirs, any other code
/// is unknown.
pub open spec fn status_of(code: i32) -> TableStatus {
    if code == 0 {
        TableStatus::Normal
    } else if code == -1 {
        TableStatus::SetIntegrityPending
    } else if code == -2 {
        TableStatus::Inoperative
    } else {
        TableStatus::Unknown
    }
}

/// The code the status query gives a status.
pub open spec fn code_of(s: TableStatus) -> i32 {
    match s {
        TableStatus::Normal => 0i32,
        TableStatus::SetIntegrityPending => -1i32,
        TableStatus::Inoperative => -2i32,
        TableStatus::Unknown => -3i32,
    }
}

impl TableStatus {
    /// The status a code stands for.
    pub fn from_code(code: i32) -> (r: TableStatus)
        ensures
            r == status_of(code),
    {
        if code == 0 {
            TableStatus::Normal
        } else if code == -1 {
            TableStatus::SetIntegrityPending
        } else if code == -2 {
            TableStatus::Inoperative
        } else {
            TableStatus::Unknown
        }
    }

    /// The code of this status.
    pub fn code(&self) -> (r: i32)
        ensures
            r == code_of(*self),
    {
        match self {
            TableStatus::Normal => 0,
            TableStatus::SetIntegrityPending => -1,
            TableStatus::Inoperative => -2,
            TableStatus::Unknown => -3,
        }
    }

    /// Whether work on the table may go on: only a normal table allows it.
    pub fn is_sufficient(&self) -> (r: bool)
        ensures
            r == (*self == TableStatus::Normal),
    {
        match self {
            TableStatus::Normal => true,
            _ => false,
        }
    }

    /// The status's name as the reports write it.
    pub fn description(&self) -> (r: &'static str)
        ensures
            *self == TableStatus::Normal ==> r@ == "Normal"@,
            *self == TableStatus::SetIntegrityPending ==> r@ == "Set integrity pending"@,
            *self == TableStatus::Inoperative ==> r@ == "Inoperative"@,
            *self == TableStatus::Unknown ==> r@ == "Unknown status"@,
    {
        match self {
            TableStatus::Normal => "Normal",
            TableStatus::SetIntegrityPending => "Set integrity pending",
            TableStatus::Inoperative => "Inoperative",
            TableStatus::Unknown => "Unknown status",
        }
    }
}

/// The status codes the catalog query gives: 0 normal, -1 set-integrity
/// pending, -2 inoperative; any other code is unknown, and unknown has the
/// code -3.
pub proof fn status_code_meanings(code: i32)
    ensures
        status_of(0i32) == TableStatus::Normal,
        status_of(-1i32) == TableStatus::SetIntegrityPending,
        status_of(-2i32) == TableStatus::Inoperative,
        code != 0 && code != -1 && code != -2 ==> status_of(code) == TableStatus::Unknown,
        code_of(TableStatus::Unknown) == -3,
{
}

/// A status code and its status determine each other: the code of a status
/// gives that status back, and each code the status query produces is the
/// code of its status.
pub proof fn status_codes_round_trip(s: TableStatus, code: i32)
    ensures
        status_of(code_of(s)) == s,
        -3 <= code <= 0 ==> code_of(status_of(code)) == code,
{
}

} // verus!
