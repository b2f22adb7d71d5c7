use db2lib::instance::{check_instance_owner, check_owner_in_text, running_instance_owner, OwnerCheck};

const PS: &str = "root     systemd\nroot     sshd\ndb2fenc1 db2fmp\ndb2luw1  db2sysc\ndb2luw2  db2sysc\n";

#[test]
fn first_engine_line_gives_the_owner() {
    assert_eq!(running_instance_owner(PS), Some("db2luw1".to_string()));
}

#[test]
fn no_engine_line_gives_none() {
    assert_eq!(running_instance_owner("root systemd\nuser bash\n"), None);
    assert_eq!(running_instance_owner(""), None);
    assert_eq!(running_instance_owner("db2sysc\n"), None);
}

#[test]
fn lines_are_trimmed_and_crlf_is_handled() {
    assert_eq!(running_instance_owner("  db2inst1\t db2sysc  \r\n"), Some("db2inst1".to_string()));
    assert_eq!(running_instance_owner("x db2sysc2\ny db2sysc"), Some("y".to_string()));
    assert_eq!(running_instance_owner("a  b\nz\u{3000}db2sysc"), Some("z".to_string()));
}

#[test]
fn owner_check_outcomes() {
    match check_owner_in_text(PS, "db2luw1") {
        OwnerCheck::Expected(u) => assert_eq!(u, "db2luw1"),
        _ => panic!("expected owner"),
    }
    match check_owner_in_text(PS, "db2luw2") {
        OwnerCheck::Unexpected(u) => assert_eq!(u, "db2luw1"),
        _ => panic!("unexpected owner"),
    }
    assert!(matches!(check_owner_in_text("root init\n", "db2luw1"), OwnerCheck::NotRunning));
    assert!(check_owner_in_text(PS, "db2luw1").passed());
    assert!(!check_owner_in_text(PS, "x").passed());
}

#[test]
fn raw_ps_output_is_decoded_lossily() {
    assert!(check_instance_owner(PS.as_bytes(), "db2luw1").passed());
    let mut bytes = b"ro\xffot init\n".to_vec();
    bytes.extend_from_slice(b"db2\xfeinst db2sysc\n");
    match check_instance_owner(&bytes, "db2inst") {
        OwnerCheck::Unexpected(u) => assert_eq!(u, "db2\u{FFFD}inst"),
        _ => panic!("owner with replacement character"),
    }
}
