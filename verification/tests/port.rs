use bayer_axum::port::parse_port;

#[test]
fn plain_numbers_are_ports() {
    assert_eq!(parse_port("0"), Some(0));
    assert_eq!(parse_port("80"), Some(80));
    assert_eq!(parse_port("8080"), Some(8080));
    assert_eq!(parse_port("9090"), Some(9090));
}

#[test]
fn the_largest_port_is_65535() {
    assert_eq!(parse_port("65535"), Some(65535));
    assert_eq!(parse_port("65536"), None);
    assert_eq!(parse_port("70000"), None);
    assert_eq!(parse_port("99999999999999999999999999"), None);
}

#[test]
fn a_plus_sign_may_stand_in_front() {
    assert_eq!(parse_port("+80"), Some(80));
    assert_eq!(parse_port("+"), None);
    assert_eq!(parse_port("++80"), None);
    assert_eq!(parse_port("8+0"), None);
}

#[test]
fn zeros_in_front_do_not_count() {
    assert_eq!(parse_port("08080"), Some(8080));
    assert_eq!(parse_port("0000000000000000000065535"), Some(65535));
    assert_eq!(parse_port("00000000000000000000065536"), None);
}

#[test]
fn text_that_is_no_number_is_no_port() {
    assert_eq!(parse_port(""), None);
    assert_eq!(parse_port("not-a-number"), None);
    assert_eq!(parse_port("-1"), None);
    assert_eq!(parse_port(" 80"), None);
    assert_eq!(parse_port("80 "), None);
    assert_eq!(parse_port("80a"), None);
    assert_eq!(parse_port("8.0"), None);
    assert_eq!(parse_port("0x50"), None);
    assert_eq!(parse_port("true"), None);
    assert_eq!(parse_port("\u{663}"), None);
}
