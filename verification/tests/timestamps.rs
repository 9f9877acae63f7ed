use goodreads_graphql::decimal::{parse_timestamp, print_timestamp};
use goodreads_graphql::timestamp::Timestamp;

#[test]
fn whole_seconds_are_read() {
    let t = parse_timestamp(b"1700000000").unwrap();
    assert_eq!(t.as_nanos(), 1_700_000_000_000_000_000);
    assert_eq!(t.secs(), 1_700_000_000);
    assert_eq!(t.subsec_nanos(), 0);
}

#[test]
fn fractions_are_read_to_the_nanosecond() {
    assert_eq!(parse_timestamp(b"1700000000.5").unwrap().as_nanos(), 1_700_000_000_500_000_000);
    assert_eq!(parse_timestamp(b"0.000000001").unwrap().as_nanos(), 1);
    assert_eq!(parse_timestamp(b"12.123456789").unwrap().as_nanos(), 12_123_456_789);
}

#[test]
fn digits_past_the_ninth_place_are_dropped() {
    assert_eq!(parse_timestamp(b"1.9999999999").unwrap().as_nanos(), 1_999_999_999);
    assert_eq!(parse_timestamp(b"0.0000000009").unwrap().as_nanos(), 0);
}

#[test]
fn exponents_move_the_point() {
    assert_eq!(parse_timestamp(b"1.685030208E9").unwrap().as_nanos(), 1_685_030_208_000_000_000);
    assert_eq!(parse_timestamp(b"1.685030208e+9").unwrap().as_nanos(), 1_685_030_208_000_000_000);
    assert_eq!(parse_timestamp(b"1e0").unwrap().as_nanos(), 1_000_000_000);
    assert_eq!(parse_timestamp(b"1e+2").unwrap().as_nanos(), 100_000_000_000);
    assert_eq!(parse_timestamp(b"1.5e-1").unwrap().as_nanos(), 150_000_000);
    assert_eq!(parse_timestamp(b"15e-10").unwrap().as_nanos(), 1);
    assert_eq!(parse_timestamp(b"1e-9").unwrap().as_nanos(), 1);
    assert_eq!(parse_timestamp(b"1e-10").unwrap().as_nanos(), 0);
    assert_eq!(parse_timestamp(b"0.000001e6").unwrap().as_nanos(), 1_000_000_000);
    assert_eq!(
        parse_timestamp(b"123456789012345678901234567890123456789012345678901234567890e-50")
            .unwrap()
            .as_nanos(),
        1_234_567_890_123_456_789
    );
}

#[test]
fn exponents_beyond_counting_are_read() {
    let far = "9".repeat(60);
    assert_eq!(parse_timestamp(format!("0e{far}").as_bytes()).unwrap().as_nanos(), 0);
    assert_eq!(parse_timestamp(format!("0.000e+{far}").as_bytes()).unwrap().as_nanos(), 0);
    assert!(parse_timestamp(format!("1e{far}").as_bytes()).is_none());
    assert_eq!(parse_timestamp(format!("1e-{far}").as_bytes()).unwrap().as_nanos(), 0);
    assert_eq!(parse_timestamp(format!("{far}e-{far}").as_bytes()).unwrap().as_nanos(), 0);
    assert!(parse_timestamp(b"1e30").is_none());
    assert!(parse_timestamp(b"-1e30").is_none());
    assert_eq!(
        parse_timestamp(b"1e29").unwrap().as_nanos(),
        100_000_000_000_000_000_000_000_000_000_000_000_000
    );
    assert_eq!(
        parse_timestamp(b"-1e29").unwrap().as_nanos(),
        -100_000_000_000_000_000_000_000_000_000_000_000_000
    );
}

#[test]
fn the_latest_instant_is_read_with_an_exponent() {
    assert_eq!(
        parse_timestamp(b"170141183460469231731687303715884105727e-9").unwrap().as_nanos(),
        i128::MAX
    );
    assert!(parse_timestamp(b"170141183460469231731687303715884105728e-9").is_none());
    assert_eq!(
        parse_timestamp(b"1.70141183460469231731687303715884105727e29").unwrap().as_nanos(),
        i128::MAX
    );
    assert_eq!(
        parse_timestamp(b"-1.70141183460469231731687303715884105728E+29").unwrap().as_nanos(),
        i128::MIN
    );
}

#[test]
fn broken_exponents_are_no_instants() {
    assert!(parse_timestamp(b"1e").is_none());
    assert!(parse_timestamp(b"1e+").is_none());
    assert!(parse_timestamp(b"1e-").is_none());
    assert!(parse_timestamp(b"1e5x").is_none());
    assert!(parse_timestamp(b"1e5.5").is_none());
    assert!(parse_timestamp(b"1.e5").is_none());
    assert!(parse_timestamp(b"e5").is_none());
    assert!(parse_timestamp(b"1e++5").is_none());
}

#[test]
fn other_texts_are_no_instants() {
    assert!(parse_timestamp(b"").is_none());
    assert!(parse_timestamp(b"-").is_none());
    assert!(parse_timestamp(b"--1").is_none());
    assert!(parse_timestamp(b"+1").is_none());
    assert!(parse_timestamp(b"-.5").is_none());
    assert!(parse_timestamp(b"1-").is_none());
    assert!(parse_timestamp(b"1.").is_none());
    assert!(parse_timestamp(b".5").is_none());
    assert!(parse_timestamp(b"1.5x").is_none());
    assert!(parse_timestamp(b"1,5").is_none());
    assert!(parse_timestamp(b"abc").is_none());
    assert!(parse_timestamp(b"1 ").is_none());
}

#[test]
fn instants_too_far_to_hold_are_none() {
    // i128::MAX nanoseconds are 170141183460469231731687303715 seconds and a bit.
    assert_eq!(
        parse_timestamp(b"170141183460469231731687303715.884105727").unwrap().as_nanos(),
        i128::MAX
    );
    assert!(parse_timestamp(b"170141183460469231731687303715.884105728").is_none());
    assert!(parse_timestamp(b"170141183460469231731687303716").is_none());
    assert!(parse_timestamp(b"99999999999999999999999999999999999999999999").is_none());
    assert_eq!(
        parse_timestamp(b"-170141183460469231731687303715.884105728").unwrap().as_nanos(),
        i128::MIN
    );
    assert!(parse_timestamp(b"-170141183460469231731687303715.884105729").is_none());
    assert!(parse_timestamp(b"-170141183460469231731687303716").is_none());
    // Between what a signed and what an unsigned count of 128 bits holds.
    assert!(parse_timestamp(b"340282366920938463463374607431.768211455").is_none());
    assert!(parse_timestamp(b"-340282366920938463463374607431.768211455").is_none());
    assert!(parse_timestamp(b"-340282366920938463463374607431.768211456").is_none());
}

#[test]
fn instants_before_the_epoch_are_read() {
    assert_eq!(parse_timestamp(b"-1").unwrap().as_nanos(), -1_000_000_000);
    assert_eq!(parse_timestamp(b"-0.5").unwrap().as_nanos(), -500_000_000);
    assert_eq!(parse_timestamp(b"-0").unwrap().as_nanos(), 0);
    assert_eq!(parse_timestamp(b"-0.0000000019").unwrap().as_nanos(), -1);
    assert_eq!(parse_timestamp(b"-1.5e3").unwrap().as_nanos(), -1_500_000_000_000);
    assert_eq!(parse_timestamp(b"-15e-1").unwrap().as_nanos(), -1_500_000_000);
    let before = parse_timestamp(b"-0.000000001").unwrap();
    assert_eq!(before.secs(), -1);
    assert_eq!(before.subsec_nanos(), 999_999_999);
    assert!(before.is_before(&Timestamp::from_nanos(0)));
    let whole = Timestamp::from_nanos(-2_000_000_000);
    assert_eq!((whole.secs(), whole.subsec_nanos()), (-2, 0));
    let least = Timestamp::from_nanos(i128::MIN);
    assert_eq!(least.secs(), -170141183460469231731687303716);
    assert_eq!(least.subsec_nanos(), 115_894_272);
}

#[test]
fn instants_are_written_with_nine_places() {
    assert_eq!(print_timestamp(&Timestamp::from_nanos(0)), b"0.000000000".to_vec());
    assert_eq!(
        print_timestamp(&Timestamp::from_parts(1_700_000_000, 500_000_000)),
        b"1700000000.500000000".to_vec()
    );
    assert_eq!(
        print_timestamp(&Timestamp::from_nanos(i128::MAX)),
        b"170141183460469231731687303715.884105727".to_vec()
    );
    assert_eq!(print_timestamp(&Timestamp::from_nanos(-1)), b"-0.000000001".to_vec());
    assert_eq!(print_timestamp(&Timestamp::from_nanos(-1_500_000_000)), b"-1.500000000".to_vec());
    assert_eq!(
        print_timestamp(&Timestamp::from_nanos(i128::MIN)),
        b"-170141183460469231731687303715.884105728".to_vec()
    );
}

#[test]
fn written_instants_are_read_back() {
    for nanos in [
        0i128,
        1,
        -1,
        999_999_999,
        -999_999_999,
        1_000_000_000,
        -1_000_000_000,
        1_700_000_000_123_456_789,
        -1_700_000_000_123_456_789,
        i128::MAX,
        i128::MIN,
        i128::MIN + 1,
    ] {
        let t = Timestamp::from_nanos(nanos);
        assert_eq!(parse_timestamp(&print_timestamp(&t)), Some(t));
    }
}

#[test]
fn parts_make_the_instant() {
    let t = Timestamp::from_parts(3, 7);
    assert_eq!(t.as_nanos(), 3_000_000_007);
    assert!(Timestamp::from_nanos(5).is_before(&Timestamp::from_nanos(6)));
    assert!(!Timestamp::from_nanos(6).is_before(&Timestamp::from_nanos(6)));
    assert!(!Timestamp::from_nanos(7).is_before(&Timestamp::from_nanos(6)));
}
