use db2lib::catalog::{
    count_is_nonzero, status_from_rows, to_ascii_lower, count_is_zero, routine_count_query, row_count_query,
    table_count_query, table_status_query, TableStatus,
};
use db2lib::identifier::{check_object_names, is_valid_object_name, NameError};

#[test]
fn object_names_allow_only_ascii_alphanumerics_underscore_and_dash() {
    assert!(is_valid_object_name("db2luw1"));
    assert!(is_valid_object_name("EMP_ACT-2"));
    assert!(!is_valid_object_name(""));
    assert!(!is_valid_object_name("emp loyee"));
    assert!(!is_valid_object_name("emp;drop"));
    assert!(!is_valid_object_name("o'brien"));
    assert!(!is_valid_object_name("tabé"));
    assert!(!is_valid_object_name("a.b"));
}

#[test]
fn schema_is_checked_before_name() {
    match check_object_names("bad schema", "bad name") {
        Err(NameError::IllegalSchema(s)) => assert_eq!(s, "bad schema"),
        _ => panic!("schema should be refused"),
    }
    match check_object_names("good", "") {
        Err(NameError::IllegalName(s)) => assert_eq!(s, ""),
        _ => panic!("name should be refused"),
    }
    assert!(check_object_names("good", "also_good").is_ok());
}

#[test]
fn refusal_messages() {
    assert_eq!(
        NameError::IllegalSchema("a b".to_string()).message(),
        "Illegal character in tabschema a b (only ASCII alphanumerics, '_', '-', allowed): Aborting."
    );
    assert_eq!(
        NameError::IllegalName("x;y".to_string()).message(),
        "Illegal character in tabname x;y (only ASCII alphanumerics, '_', '-', allowed). Aborting."
    );
}

#[test]
fn table_status_query_binds_both_names() {
    let q = table_status_query("db2luw1", "employee").ok().unwrap();
    assert_eq!(q.sql, "SELECT CASE WHEN status = 'N' THEN 0 WHEN status = 'C' THEN -1 WHEN status = 'X' THEN -2 ELSE -3 END FROM syscat.tables WHERE LOWER(tabschema) = ? AND LOWER(tabname) = ? FOR READ ONLY;");
    assert_eq!(q.params, vec!["db2luw1".to_string(), "employee".to_string()]);
    let upper = table_status_query("DB2LUW1", "Employee").ok().unwrap();
    assert_eq!(upper.params, vec!["db2luw1".to_string(), "employee".to_string()]);
    assert!(matches!(table_status_query("db2 luw1", "employee"), Err(NameError::IllegalSchema(_))));
    assert!(matches!(table_status_query("db2luw1", "emp'"), Err(NameError::IllegalName(_))));
}

#[test]
fn row_count_query_names_the_table() {
    let q = row_count_query("db2luw1", "employee").ok().unwrap();
    assert_eq!(q.sql, "SELECT COUNT(*) FROM db2luw1.employee FOR READ ONLY");
    assert!(q.params.is_empty());
    assert!(matches!(row_count_query("s", "t;DROP"), Err(NameError::IllegalName(_))));
}

#[test]
fn routine_count_query_for_functions_and_procedures() {
    let f = routine_count_query("s1", "f1", true).ok().unwrap();
    assert_eq!(f.sql, "SELECT COUNT(*) FROM syscat.functions WHERE funcschema = UPPER(?) AND funcname = UPPER(?) FOR READ ONLY");
    assert_eq!(f.params, vec!["s1".to_string(), "f1".to_string()]);
    let p = routine_count_query("s1", "p1", false).ok().unwrap();
    assert_eq!(p.sql, "SELECT COUNT(*) FROM syscat.procedures WHERE procschema = UPPER(?) AND procname = UPPER(?) FOR READ ONLY");
    assert!(matches!(routine_count_query("", "p1", false), Err(NameError::IllegalSchema(_))));
}

#[test]
fn table_count_query_binds_unchecked_names() {
    let q = table_count_query("any schema", "any'name");
    assert_eq!(q.sql, "SELECT COUNT(1) FROM syscat.tables WHERE tabschema = UPPER(?) AND tabname = UPPER(?) FOR READ ONLY");
    assert_eq!(q.params, vec!["any schema".to_string(), "any'name".to_string()]);
}

#[test]
fn status_code_from_rows() {
    assert_eq!(status_from_rows(&vec![]), -3);
    assert_eq!(status_from_rows(&vec![None]), -3);
    assert_eq!(status_from_rows(&vec![Some(0)]), 0);
    assert_eq!(status_from_rows(&vec![Some(-1), None]), -1);
    assert_eq!(status_from_rows(&vec![Some(-1), Some(-2)]), -2);
}

#[test]
fn ascii_lowering() {
    assert_eq!(to_ascii_lower("Db2LUW1_X-9"), "db2luw1_x-9");
    assert_eq!(to_ascii_lower("ÄBC"), "Äbc");
    assert_eq!(to_ascii_lower(""), "");
}

#[test]
fn count_decisions() {
    assert!(count_is_zero(Some(0)));
    assert!(!count_is_zero(Some(3)));
    assert!(!count_is_zero(None));
    assert!(count_is_nonzero(Some(1)));
    assert!(count_is_nonzero(Some(-1)));
    assert!(!count_is_nonzero(Some(0)));
    assert!(!count_is_nonzero(None));
}

#[test]
fn table_status_codes() {
    assert_eq!(TableStatus::from_code(0), TableStatus::Normal);
    assert_eq!(TableStatus::from_code(-1), TableStatus::SetIntegrityPending);
    assert_eq!(TableStatus::from_code(-2), TableStatus::Inoperative);
    assert_eq!(TableStatus::from_code(-3), TableStatus::Unknown);
    assert_eq!(TableStatus::from_code(7), TableStatus::Unknown);
    for code in [0, -1, -2, -3] {
        assert_eq!(TableStatus::from_code(code).code(), code);
    }
    assert!(TableStatus::Normal.is_sufficient());
    assert!(!TableStatus::Inoperative.is_sufficient());
    assert_eq!(TableStatus::Normal.description(), "Normal");
    assert_eq!(TableStatus::SetIntegrityPending.description(), "Set integrity pending");
    assert_eq!(TableStatus::Inoperative.description(), "Inoperative");
    assert_eq!(TableStatus::Unknown.description(), "Unknown status");
}
