use ntscrs_android::text::{cstr, escape_json_into, opt_str, push_decimal, push_number};

fn escaped(s: &str) -> String {
    let mut out = String::from("<");
    escape_json_into(&mut out, s);
    out
}

#[test]
fn plain_text_is_not_escaped() {
    assert_eq!(escaped(""), "<");
    assert_eq!(escaped("Tape speed / ü"), "<Tape speed / ü");
}

#[test]
fn special_characters_are_escaped() {
    assert_eq!(escaped("a\"b\\c"), "<a\\\"b\\\\c");
    assert_eq!(escaped("\n\r\t"), "<\\n\\r\\t");
    assert_eq!(escaped("\u{0}\u{8}\u{1f} "), "<\\u0000\\u0008\\u001f ");
    assert_eq!(escaped("\u{7f}"), "<\u{7f}");
}

#[test]
fn escaped_text_reads_back() {
    for text in ["", "plain", "q\"b\\n\n\r\t\u{1}\u{1f}é\u{10ffff}"] {
        let mut json = String::new();
        opt_str(&mut json, Some(text));
        let back = serde_json::from_str::<serde_json::Value>(&json).unwrap();
        assert_eq!(back.as_str(), Some(text));
    }
}

#[test]
fn escaping_joins() {
    assert_eq!(escaped("a\nb\""), escaped("a\n") + &escaped("b\"")[1..]);
}

#[test]
fn missing_text_is_null() {
    let mut out = String::from(":");
    opt_str(&mut out, None);
    assert_eq!(out, ":null");
    opt_str(&mut out, Some("x\ty"));
    assert_eq!(out, ":null\"x\\ty\"");
}

#[test]
fn numbers_are_written_in_decimal() {
    let mut out = String::new();
    push_decimal(&mut out, 0);
    push_decimal(&mut out, u64::MAX);
    assert_eq!(out, "018446744073709551615");
    for n in [0, 7, -1, -11, 1000, i64::MAX, i64::MIN] {
        let mut out = String::from("#");
        push_number(&mut out, n);
        assert_eq!(out, format!("#{}", n));
    }
}

#[test]
fn c_text_ends_at_the_first_nul() {
    assert_eq!(cstr(b"no such file\0\0rest"), "no such file");
    assert_eq!(cstr(b"\0abc"), "");
    assert_eq!(cstr(b""), "");
    assert_eq!(cstr("ünterbrochen".as_bytes()), "ünterbrochen");
}

#[test]
fn broken_c_text_is_repaired() {
    assert_eq!(cstr(&[b'a', 0xff, b'b', 0]), "a\u{fffd}b");
}
