use db2lib::config::{ConfigError, DbConfig};
use db2lib::gzip::has_gzip_magic;
use db2lib::lockfile::{check_existing_entry, check_opened_handle, lock_file_path, LockFileError, LOCK_FILE_MODE};
use db2lib::run::{exit_code, next_step, RunEvent, RunOutcome, RunStep};
use db2lib::xml_scan::{scan_step, ScanStep, XmlEvent};
use db2lib::xml_scan::XmlEvent::{Empty, Eof, Error, Other, Start};
use db2lib::run::RunEvent::{Failed, OwnerChecked, Succeeded, TableStatus};

fn scan(events: &[XmlEvent]) -> Option<bool> {
    let mut saw = false;
    for e in events {
        match scan_step(saw, *e) {
            ScanStep::Done(b) => return Some(b),
            ScanStep::Continue(s) => saw = s,
        }
    }
    None
}

#[test]
fn xml_scan_needs_an_element_and_no_error() {
    assert_eq!(scan(&[Start, Other, Other, Eof]), Some(true));
    assert_eq!(scan(&[Other, Empty, Eof]), Some(true));
    assert_eq!(scan(&[Other, Eof]), Some(false));
    assert_eq!(scan(&[Eof]), Some(false));
    assert_eq!(scan(&[Start, Error, Eof]), Some(false));
    assert_eq!(scan(&[Start, Other]), None);
}

#[test]
fn gzip_magic() {
    assert!(has_gzip_magic(&[0x1f, 0x8b]));
    assert!(has_gzip_magic(&[0x1f, 0x8b, 0x08, 0x00]));
    assert!(!has_gzip_magic(&[0x1f]));
    assert!(!has_gzip_magic(&[]));
    assert!(!has_gzip_magic(&[0x8b, 0x1f]));
    assert!(!has_gzip_magic(b"<?xml"));
}

#[test]
fn configuration_reports_the_first_missing_variable() {
    let s = |v: &str| Some(v.to_string());
    assert!(matches!(DbConfig::from_values(None, None, None), Err(ConfigError::MissingDsn)));
    assert!(matches!(DbConfig::from_values(s("d"), None, None), Err(ConfigError::MissingUser)));
    assert!(matches!(DbConfig::from_values(s("d"), s("u"), None), Err(ConfigError::MissingPassword)));
    let c = DbConfig::from_values(s("d"), s("u"), s("p")).ok().unwrap();
    assert_eq!((c.dsn(), c.user(), c.password()), ("d", "u", "p"));
    assert_eq!(ConfigError::MissingDsn.variable(), "DB2_DSN");
    assert_eq!(ConfigError::MissingUser.variable(), "DB2_USER");
    assert_eq!(
        ConfigError::MissingPassword.message(),
        "DB2_PWD environment variable not set. Please set it or create a .env file."
    );
}

#[test]
fn redacted_configuration_hides_the_password() {
    let c = DbConfig::from_values(Some("dsn_x".into()), Some("db2luw1".into()), Some("secret".into()))
        .ok()
        .unwrap();
    let r = c.redacted();
    assert_eq!(r.dsn(), "dsn_x");
    assert_eq!(r.user(), "db2luw1");
    assert_eq!(r.password(), "***");
    assert_eq!(c.password(), "secret");
}

#[test]
fn lock_file_location() {
    assert_eq!(lock_file_path(None), "/tmp/db2binmain.lock");
    assert_eq!(lock_file_path(Some("/var/tmp".into())), "/var/tmp/db2binmain.lock");
    assert_eq!(lock_file_path(Some("/var/tmp/".into())), "/var/tmp/db2binmain.lock");
    assert_eq!(lock_file_path(Some(String::new())), "/db2binmain.lock");
    assert_eq!(LOCK_FILE_MODE, 0o600);
}

#[test]
fn lock_file_checks() {
    assert!(check_existing_entry("/tmp/l", None).is_ok());
    assert!(check_existing_entry("/tmp/l", Some(false)).is_ok());
    let e = check_existing_entry("/tmp/l", Some(true)).err().unwrap();
    assert_eq!(e.message(), "Refusing to use lock file '/tmp/l': existing entry is a symlink");
    assert!(check_opened_handle("/tmp/l", true).is_ok());
    match check_opened_handle("/tmp/l", false) {
        Err(e @ LockFileError::NotRegularFile(_)) => assert_eq!(
            e.message(),
            "Refusing to use lock file '/tmp/l': resolved to something other than a regular file"
        ),
        _ => panic!("non-regular file accepted"),
    }
}

fn run_through(events: &[RunEvent]) -> RunStep {
    let mut step = RunStep::CheckInstanceOwner;
    for e in events {
        step = next_step(step, *e);
    }
    step
}

#[test]
fn program_exit_codes() {
    let ok = [OwnerChecked(true), Succeeded, Succeeded, Succeeded, Succeeded];
    let mut all = ok.to_vec();
    all.push(TableStatus(0));
    assert_eq!(run_through(&all), RunStep::Finished(RunOutcome::Exit(0)));
    let mut pending = ok.to_vec();
    pending.push(TableStatus(-1));
    assert_eq!(run_through(&pending), RunStep::Finished(RunOutcome::Exit(4)));
    assert_eq!(run_through(&[OwnerChecked(false)]), RunStep::Finished(RunOutcome::Exit(3)));
    assert_eq!(run_through(&[Failed]), RunStep::Finished(RunOutcome::Exit(3)));
    assert_eq!(run_through(&[OwnerChecked(true), Failed]), RunStep::Finished(RunOutcome::Failed));
    assert_eq!(run_through(&[OwnerChecked(true), Succeeded, Failed]), RunStep::Finished(RunOutcome::Failed));
    assert_eq!(run_through(&[OwnerChecked(true), Succeeded, Succeeded, Failed]), RunStep::Finished(RunOutcome::Exit(1)));
    assert_eq!(run_through(&ok[..4].iter().cloned().chain([Failed]).collect::<Vec<_>>()), RunStep::Finished(RunOutcome::Exit(2)));
    assert_eq!(run_through(&[OwnerChecked(true), Succeeded, Succeeded, Succeeded, Succeeded, Failed]), RunStep::Finished(RunOutcome::Failed));
    assert_eq!(next_step(RunStep::Finished(RunOutcome::Exit(2)), Succeeded), RunStep::Finished(RunOutcome::Exit(2)));
    assert_eq!(next_step(RunStep::Connect, TableStatus(0)), RunStep::Connect);
    assert_eq!(exit_code(RunOutcome::Exit(4)), 4);
    assert_eq!(exit_code(RunOutcome::Failed), 1);
}
