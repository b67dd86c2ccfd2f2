use catmodoro::args::duration_from_arg;
use catmodoro::args::DEFAULT_MINUTES;

#[test]
fn no_argument_gives_the_default() {
    assert_eq!(DEFAULT_MINUTES, 25);
    assert_eq!(duration_from_arg(None), Some(25));
}

#[test]
fn a_number_is_taken() {
    assert_eq!(duration_from_arg(Some("25")), Some(25));
    assert_eq!(duration_from_arg(Some("1")), Some(1));
    assert_eq!(duration_from_arg(Some("0")), Some(0));
    assert_eq!(duration_from_arg(Some("90")), Some(90));
    assert_eq!(duration_from_arg(Some("007")), Some(7));
    assert_eq!(duration_from_arg(Some("+15")), Some(15));
}

#[test]
fn the_largest_number_is_taken_and_the_next_is_not() {
    assert_eq!(duration_from_arg(Some("18446744073709551615")), Some(u64::MAX));
    assert_eq!(duration_from_arg(Some("18446744073709551616")), None);
    assert_eq!(duration_from_arg(Some("99999999999999999999999")), None);
    assert_eq!(duration_from_arg(Some("00018446744073709551615")), Some(u64::MAX));
}

#[test]
fn what_is_no_number_is_refused() {
    for text in [
        "", "+", "-", "-1", "-0", "abc", "25m", "m25", " 25", "25 ", "2 5", "1_000", "2.5", "1e3",
        "++1", "+-1", "0x10", "٢٥",
    ] {
        assert_eq!(duration_from_arg(Some(text)), None);
    }
}
