use repo_renamer::text::{chars_of, push_decimal, same_text};

#[test]
fn same_text_compares_character_by_character() {
    assert!(same_text("", ""));
    assert!(same_text("abc", "abc"));
    assert!(same_text("d\u{e9}j\u{e0}", "d\u{e9}j\u{e0}"));
    assert!(!same_text("abc", "abd"));
    assert!(!same_text("abc", "ab"));
    assert!(!same_text("ab", "abc"));
    assert!(!same_text("", "a"));
    assert!(!same_text("a", ""));
    assert!(!same_text("e\u{301}", "\u{e9}"));
}

#[test]
fn chars_of_lists_the_characters() {
    assert_eq!(chars_of(""), Vec::<char>::new());
    assert_eq!(chars_of("a-b"), vec!['a', '-', 'b']);
    assert_eq!(chars_of("\u{1f980}x"), vec!['\u{1f980}', 'x']);
}

#[test]
fn push_decimal_writes_the_numeral() {
    let cases: [(u16, &str); 9] = [
        (0, "0"),
        (7, "7"),
        (9, "9"),
        (10, "10"),
        (200, "200"),
        (404, "404"),
        (1000, "1000"),
        (40004, "40004"),
        (65535, "65535"),
    ];
    for (n, numeral) in cases {
        let mut text = String::new();
        push_decimal(&mut text, n);
        assert_eq!(text, numeral);
    }
}

#[test]
fn push_decimal_appends_behind_what_is_there() {
    let mut text = "status ".to_string();
    push_decimal(&mut text, 503);
    assert_eq!(text, "status 503");
}

#[test]
fn push_decimal_agrees_with_std_on_every_value() {
    let mut n: u16 = 0;
    loop {
        let mut text = String::new();
        push_decimal(&mut text, n);
        assert_eq!(text, format!("{}", n));
        if n == u16::MAX {
            break;
        }
        n += 1;
    }
}
