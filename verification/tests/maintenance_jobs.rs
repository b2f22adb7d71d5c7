use db2lib::identifier::NameError;
use db2lib::maintenance::{result_text, MaintenanceJob, MaintenanceKind};

#[test]
fn set_integrity_job() {
    let mut job = MaintenanceJob::new(MaintenanceKind::SetIntegrity, "db2luw1", "employee")
        .ok()
        .unwrap();
    assert_eq!(job.kind(), MaintenanceKind::SetIntegrity);
    assert_eq!(job.schema(), "db2luw1");
    assert_eq!(job.name(), "employee");
    let q = job.probe_query();
    assert_eq!(q.sql, "SELECT COUNT(1) FROM syscat.tables WHERE tabschema = UPPER(?) AND tabname = UPPER(?) AND status = 'C' FOR READ ONLY");
    assert_eq!(q.params, vec!["db2luw1".to_string(), "employee".to_string()]);
    assert_eq!(job.count(), 0);
    assert!(!job.is_due());
    job.record_row(Some(1));
    assert!(job.is_due());
    job.record_row(None);
    assert_eq!(job.count(), 1);
    assert_eq!(job.command(), "SET INTEGRITY FOR db2luw1.employee IMMEDIATE CHECKED");
}

#[test]
fn runstats_job() {
    let mut job = MaintenanceJob::new(MaintenanceKind::Runstats, "S", "T_1").ok().unwrap();
    assert_eq!(job.probe_query().sql, "SELECT COUNT(1) FROM syscat.tables WHERE tabschema = UPPER(?) AND tabname = UPPER(?) AND status = 'N' FOR READ ONLY");
    job.record_row(Some(2));
    assert!(!job.is_due());
    job.record_row(Some(1));
    assert!(job.is_due());
    assert_eq!(job.command(), "CALL ADMIN_CMD ('RUNSTATS ON TABLE S.T_1 ON KEY COLUMNS')");
}

#[test]
fn maintenance_names_are_checked() {
    assert!(matches!(
        MaintenanceJob::new(MaintenanceKind::Runstats, "s'", "t"),
        Err(NameError::IllegalSchema(_))
    ));
    assert!(matches!(
        MaintenanceJob::new(MaintenanceKind::SetIntegrity, "s", "t x"),
        Err(NameError::IllegalName(_))
    ));
}

#[test]
fn result_text_decodes_utf8_only() {
    assert_eq!(result_text(b"done".to_vec()), Some("done".to_string()));
    assert_eq!(result_text("größe".as_bytes().to_vec()), Some("größe".to_string()));
    assert_eq!(result_text(vec![0x66, 0xff, 0x6f]), None);
    assert_eq!(result_text(Vec::new()), Some(String::new()));
}
