use raytracer::text::{find_from, find_sub, parse_usize, parse_usize_range, str_range_eq};

#[test]
fn test_parse_usize_plain() {
    assert_eq!(parse_usize("0"), Some(0));
    assert_eq!(parse_usize("123"), Some(123));
    assert_eq!(parse_usize("007"), Some(7));
}

#[test]
fn test_parse_usize_plus_sign() {
    assert_eq!(parse_usize("+9"), Some(9));
    assert_eq!(parse_usize("+"), None);
}

#[test]
fn test_parse_usize_rejects_garbage() {
    assert_eq!(parse_usize(""), None);
    assert_eq!(parse_usize("12a"), None);
    assert_eq!(parse_usize("-3"), None);
    assert_eq!(parse_usize("1 2"), None);
}

#[test]
fn test_parse_usize_overflow() {
    assert_eq!(parse_usize("18446744073709551615"), Some(usize::MAX));
    assert_eq!(parse_usize("18446744073709551616"), None);
    assert_eq!(parse_usize("99999999999999999999999999"), None);
}

#[test]
fn test_parse_usize_range_window() {
    assert_eq!(parse_usize_range("ab12cd", 2, 4), Some(12));
    assert_eq!(parse_usize_range("ab12cd", 0, 4), None);
}

#[test]
fn test_find_from() {
    assert_eq!(find_from("a:b:c", 0, ':'), 1);
    assert_eq!(find_from("a:b:c", 2, ':'), 3);
    assert_eq!(find_from("abc", 0, ':'), 3);
}

#[test]
fn test_find_sub() {
    assert_eq!(find_sub("1//2", "//", 0), Some(1));
    assert_eq!(find_sub("1/2", "//", 0), None);
    assert_eq!(find_sub("x/y/z", "/", 2), Some(3));
}

#[test]
fn test_str_range_eq() {
    assert!(str_range_eq("uniform:2", 0, 7, "uniform"));
    assert!(!str_range_eq("uniform:2", 0, 7, "jitter"));
    assert!(!str_range_eq("uniform:2", 0, 6, "uniform"));
}
