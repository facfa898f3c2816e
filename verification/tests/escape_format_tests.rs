use termsvg::{push_char, push_decimal, push_escaped, push_joined, push_milli_fixed,
    push_milli_trimmed, unescape_text};

fn escaped(c: char) -> String {
    let mut s = String::new();
    push_escaped(&mut s, c);
    s
}

#[test]
fn escape_reserved_chars() {
    assert_eq!(escaped('\''), "&#39;");
    assert_eq!(escaped('"'), "&quot;");
    assert_eq!(escaped('&'), "&amp;");
    assert_eq!(escaped('>'), "&gt;");
    assert_eq!(escaped('<'), "&lt;");
}

#[test]
fn escape_is_identity_elsewhere() {
    assert_eq!(escaped('A'), "A");
    assert_eq!(escaped(' '), " ");
    assert_eq!(escaped('é'), "é");
    assert_eq!(escaped(';'), ";");
}

#[test]
fn escape_then_unescape_round_trip() {
    for c in ['\'', '"', '&', '>', '<', 'a', 'Z', '0', 'é', '~'] {
        let e = escaped(c);
        assert_eq!(unescape_text(&e), c.to_string());
    }
}

#[test]
fn unescape_mixed_text() {
    assert_eq!(unescape_text("a&lt;b&amp;&quot;x&#39;&gt;"), "a<b&\"x'>");
    assert_eq!(unescape_text("plain text"), "plain text");
    // an unterminated entity prefix stands for itself
    assert_eq!(unescape_text("&gt"), "&gt");
    assert_eq!(unescape_text("&"), "&");
}

#[test]
fn decimal_formatting() {
    let mut s = String::new();
    push_decimal(&mut s, 0);
    s.push(' ');
    push_decimal(&mut s, 7);
    s.push(' ');
    push_decimal(&mut s, 1234567890);
    assert_eq!(s, "0 7 1234567890");
}

#[test]
fn milli_fixed_formatting() {
    let mut s = String::new();
    push_milli_fixed(&mut s, 12345);
    s.push(' ');
    push_milli_fixed(&mut s, 12000);
    s.push(' ');
    push_milli_fixed(&mut s, 7);
    assert_eq!(s, "12.345 12.000 0.007");
}

#[test]
fn milli_trimmed_formatting() {
    let mut s = String::new();
    for (i, m) in [12000u64, 12300, 12340, 12345, 600, 0].iter().enumerate() {
        if i > 0 {
            s.push(' ');
        }
        push_milli_trimmed(&mut s, *m);
    }
    assert_eq!(s, "12 12.3 12.34 12.345 0.6 0");
}

#[test]
fn join_with_separator() {
    let mut s = String::new();
    push_joined(
        &mut s,
        &vec!["JetBrains Mono".to_string(), "monospace".to_string()],
        ",",
    );
    assert_eq!(s, "JetBrains Mono,monospace");
    let mut empty = String::new();
    push_joined(&mut empty, &Vec::new(), ",");
    assert_eq!(empty, "");
}

#[test]
fn push_char_appends() {
    let mut s = String::from("ab");
    push_char(&mut s, 'c');
    assert_eq!(s, "abc");
}
