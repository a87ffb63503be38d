use ebrz::decimal::{append_i64, append_u32, parse_i64};

fn written(n: i64) -> String {
    let mut text = String::new();
    append_i64(&mut text, n);
    text
}

#[test]
fn integers_are_written_in_decimal() {
    assert_eq!(written(0), "0");
    assert_eq!(written(7), "7");
    assert_eq!(written(10), "10");
    assert_eq!(written(1234567890), "1234567890");
    assert_eq!(written(-1), "-1");
    assert_eq!(written(-905), "-905");
    assert_eq!(written(i64::MAX), "9223372036854775807");
    assert_eq!(written(i64::MIN), "-9223372036854775808");
}

#[test]
fn writing_appends() {
    let mut text = String::from("n=");
    append_i64(&mut text, -42);
    append_u32(&mut text, 0);
    append_u32(&mut text, u32::MAX);
    assert_eq!(text, "n=-4204294967295");
}

#[test]
fn integers_are_read_as_the_standard_library_reads_them() {
    let cases = [
        "", "0", "-0", "+0", "7", "+7", "-7", "007", "-007", "12a", "a12", " 12", "12 ", "+", "-",
        "+-1", "--1", "1-", "1_000", "9223372036854775807", "9223372036854775808",
        "-9223372036854775808", "-9223372036854775809", "99999999999999999999999",
        "-99999999999999999999999", "000000000000000000000000000000001", "１２", "1.5", "0x10",
    ];
    for case in cases {
        assert_eq!(parse_i64(case), case.parse::<i64>().ok(), "{case:?}");
    }
    assert_eq!(parse_i64("-9223372036854775808"), Some(i64::MIN));
    assert_eq!(parse_i64("9223372036854775808"), None);
    assert_eq!(parse_i64("+15"), Some(15));
}

#[test]
fn reading_undoes_writing() {
    for n in [0, 1, -1, 9, 10, -10, 99, 100, 4096, -4096, i64::MAX, i64::MIN, i64::MIN + 1] {
        assert_eq!(parse_i64(&written(n)), Some(n));
    }
}
