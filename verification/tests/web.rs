use l4t_playpen::header::{fmt_header, header_name, parse_header};
use l4t_playpen::response::{render, Endpoint};

#[test]
fn header_name_is_x_xss_protection() {
    assert_eq!(header_name(), "X-XSS-Protection");
}

#[test]
fn header_parses_one_and_zero() {
    assert_eq!(parse_header(&[b"1".to_vec()]), Some(true));
    assert_eq!(parse_header(&[b"0".to_vec()]), Some(false));
}

#[test]
fn header_rejects_everything_else() {
    assert_eq!(parse_header(&[]), None);
    assert_eq!(parse_header(&[Vec::new()]), None);
    assert_eq!(parse_header(&[b"2".to_vec()]), None);
    assert_eq!(parse_header(&[b"10".to_vec()]), None);
    assert_eq!(parse_header(&[b" 1".to_vec()]), None);
    assert_eq!(parse_header(&[b"1; mode=block".to_vec()]), None);
    assert_eq!(parse_header(&[b"1".to_vec(), b"1".to_vec()]), None);
    assert_eq!(parse_header(&[b"true".to_vec()]), None);
}

#[test]
fn header_is_written_as_one_digit() {
    assert_eq!(fmt_header(true), "1");
    assert_eq!(fmt_header(false), "0");
}

#[test]
fn written_header_is_read_back() {
    assert_eq!(parse_header(&[fmt_header(true).as_bytes().to_vec()]), Some(true));
    assert_eq!(parse_header(&[fmt_header(false).as_bytes().to_vec()]), Some(false));
}

#[test]
fn endpoints_name_their_scripts() {
    assert_eq!(Endpoint::Evaluate.command(), "/usr/local/bin/evaluate.sh");
    assert_eq!(Endpoint::Compile.command(), "/usr/local/bin/compile.sh");
}

#[test]
fn response_is_an_object_with_the_result() {
    assert_eq!(render(b"hi"), "{\"result\":\"hi\"}");
    assert_eq!(render(b""), "{\"result\":\"\"}");
}

#[test]
fn response_escapes_what_json_must() {
    assert_eq!(render(b"a \"b\"\n\\c\t"), "{\"result\":\"a \\\"b\\\"\\n\\\\c\\t\"}");
}

#[test]
fn response_replaces_what_is_not_utf8() {
    assert_eq!(render(&[0xff, b'H', b'i']), "{\"result\":\"\u{fffd}Hi\"}");
    assert_eq!(render("h\u{e9}".as_bytes()), "{\"result\":\"h\u{e9}\"}");
}

#[test]
fn response_shows_the_timeout_marker() {
    assert_eq!(
        render(b"partial\ntimeout triggered!"),
        "{\"result\":\"partial\\ntimeout triggered!\"}"
    );
}
