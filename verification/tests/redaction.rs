use db2lib::dsn::{connect_failure_message, is_credential_key, redact_dsn};

#[test]
fn plain_dsn_passes_through() {
    assert_eq!(redact_dsn("dsn_db2samples"), "dsn_db2samples");
    assert_eq!(redact_dsn(""), "");
    assert_eq!(redact_dsn("a;b;c"), "a;b;c");
}

#[test]
fn credentials_in_connection_string_are_masked() {
    assert_eq!(
        redact_dsn("DSN=sample;UID=db2luw1;PWD=secret"),
        "DSN=sample;UID=***;PWD=***"
    );
    assert_eq!(
        redact_dsn("Driver={Db2};Hostname=h;User=bob;Password=pw;Port=50000"),
        "Driver={Db2};Hostname=h;User=***;Password=***;Port=50000"
    );
}

#[test]
fn credential_keys_are_matched_case_insensitively_and_trimmed() {
    assert_eq!(redact_dsn(" pwd = s ; user=u"), "pwd=***;user=***");
    assert_eq!(redact_dsn("Uid=x"), "Uid=***");
    assert_eq!(redact_dsn("\tPassWord\t=a b c"), "PassWord=***");
}

#[test]
fn value_after_first_equals_sign_is_masked_whole() {
    assert_eq!(redact_dsn("PWD=a=b=c;X=1"), "PWD=***;X=1");
}

#[test]
fn other_items_are_kept_verbatim() {
    assert_eq!(redact_dsn(" DSN = x ;; ;PWD="), " DSN = x ;; ;PWD=***");
    assert_eq!(redact_dsn("USERNAME=x;PWDX=y"), "USERNAME=x;PWDX=y");
    assert_eq!(redact_dsn("DSN=x;"), "DSN=x;");
    assert_eq!(redact_dsn("noequals;PWD"), "noequals;PWD");
    assert_eq!(redact_dsn("=x"), "=x");
}

#[test]
fn keys_are_upper_cased_by_unicode_rules() {
    // `ß` upper-cases to `SS`, so this key reads as PASSWORD.
    assert_eq!(redact_dsn("PAßWORD=geheim"), "PAßWORD=***");
    // A dotless `ı` upper-cases to `I`.
    assert_eq!(redact_dsn("uıd=x"), "uıd=***");
}

#[test]
fn redaction_is_idempotent_on_examples() {
    for s in [
        "DSN=sample;UID=db2luw1;PWD=secret",
        " pwd = s ; user=u",
        "plain",
        "a=b;;c=d;Password = x",
    ] {
        let once = redact_dsn(s);
        assert_eq!(redact_dsn(&once), once);
    }
}

#[test]
fn masked_items_have_masked_values() {
    let out = redact_dsn("DSN=d;pwd=hunter2;Uid= someone ;x=y");
    for item in out.split(';') {
        if let Some((k, v)) = item.split_once('=') {
            let key = k.trim().to_uppercase();
            if ["PWD", "PASSWORD", "UID", "USER"].contains(&key.as_str()) {
                assert_eq!(v, "***");
            }
        }
    }
    assert!(!out.contains("hunter2"));
    assert!(!out.contains("someone"));
}

#[test]
fn credential_key_names() {
    assert!(is_credential_key("PWD"));
    assert!(is_credential_key("PASSWORD"));
    assert!(is_credential_key("UID"));
    assert!(is_credential_key("USER"));
    assert!(!is_credential_key("pwd"));
    assert!(!is_credential_key("USERS"));
    assert!(!is_credential_key(""));
}

#[test]
fn connect_failure_message_redacts() {
    assert_eq!(
        connect_failure_message("DSN=s;PWD=p"),
        "Failed to connect to DB2 (DSN: DSN=s;PWD=***)"
    );
    assert_eq!(
        connect_failure_message("dsn_proxpdb2"),
        "Failed to connect to DB2 (DSN: dsn_proxpdb2)"
    );
}
