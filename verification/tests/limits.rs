use db2lib::limited::{decimal_string, LimitExceeded, SizeLimitedReader, MAX_GUNZIP_SIZE, MAX_TGZ_SIZE};

#[test]
fn caps_are_one_gibibyte() {
    assert_eq!(MAX_GUNZIP_SIZE, 1024 * 1024 * 1024);
    assert_eq!(MAX_TGZ_SIZE, 1024 * 1024 * 1024);
}

#[test]
fn reads_within_the_limit_pass_through() {
    let mut r = SizeLimitedReader::new(vec![1u8, 2, 3], 10);
    assert_eq!(r.limit(), 10);
    assert_eq!(r.consumed(), 0);
    assert_eq!(r.record_read(4).ok(), Some(4));
    assert_eq!(r.record_read(6).ok(), Some(6));
    assert_eq!(r.consumed(), 10);
    assert_eq!(r.get_mut().len(), 3);
}

#[test]
fn the_read_past_the_limit_is_refused_and_stays_refused() {
    let mut r = SizeLimitedReader::new((), 5);
    assert!(r.record_read(5).is_ok());
    match r.record_read(1) {
        Err(e) => assert_eq!(e.limit, 5),
        Ok(_) => panic!("read past the limit accepted"),
    }
    assert_eq!(r.consumed(), 6);
    assert!(r.record_read(0).is_err());
}

#[test]
fn zero_limit_refuses_any_byte() {
    let mut r = SizeLimitedReader::new((), 0);
    assert!(r.record_read(0).is_ok());
    assert!(r.record_read(1).is_err());
}

#[test]
fn inner_reader_can_be_used() {
    let mut r = SizeLimitedReader::new(Vec::<u8>::new(), 3);
    r.get_mut().push(9);
    assert_eq!(r.get_mut(), &vec![9u8]);
}

#[test]
fn decimal_matches_std_formatting() {
    for n in [0u64, 7, 10, 99, 100, 1073741824, u64::MAX] {
        assert_eq!(decimal_string(n), format!("{}", n));
    }
}

#[test]
fn limit_message() {
    assert_eq!(
        LimitExceeded { limit: MAX_GUNZIP_SIZE }.message(),
        "Refusing to decompress further: exceeded 1073741824 byte limit (possible decompression bomb)"
    );
}
