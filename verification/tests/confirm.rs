use repo_renamer::confirm::is_white_space;
use repo_renamer::is_confirmation;

#[test]
fn the_three_accepted_answers() {
    assert!(is_confirmation("Y"));
    assert!(is_confirmation("y"));
    assert!(is_confirmation("yes"));
}

#[test]
fn other_spellings_are_refused() {
    assert!(!is_confirmation("Yes"));
    assert!(!is_confirmation("YES"));
    assert!(!is_confirmation("yES"));
    assert!(!is_confirmation("ye"));
    assert!(!is_confirmation("yess"));
    assert!(!is_confirmation("yy"));
    assert!(!is_confirmation("yep"));
    assert!(!is_confirmation("yea"));
    assert!(!is_confirmation("n"));
    assert!(!is_confirmation("no"));
    assert!(!is_confirmation("N"));
}

#[test]
fn empty_answer_is_refused() {
    assert!(!is_confirmation(""));
    assert!(!is_confirmation("\n"));
    assert!(!is_confirmation("   \t \r\n"));
}

#[test]
fn surrounding_white_space_is_ignored() {
    assert!(is_confirmation("y\n"));
    assert!(is_confirmation("yes\r\n"));
    assert!(is_confirmation("  Y  "));
    assert!(is_confirmation("\t yes \t\n"));
    assert!(is_confirmation("\u{a0}y\u{3000}"));
    assert!(is_confirmation("\u{2003}yes\u{2028}"));
}

#[test]
fn inner_white_space_is_kept() {
    assert!(!is_confirmation("y es"));
    assert!(!is_confirmation("y y"));
    assert!(!is_confirmation("ye s\n"));
}

#[test]
fn answer_agrees_with_trim_of_std() {
    let lines = [
        "y", "Y", "yes", "Yes", "", " ", "n\n", " y", "y ", "\ty\t", "yes \n", "y\u{85}",
        "\u{1680}Y", "\u{200b}y", "y\u{feff}", "\u{180e}yes", "yes\u{0}", "\u{1f}y",
    ];
    for line in lines {
        let trimmed = line.trim();
        let expected = trimmed == "Y" || trimmed == "y" || trimmed == "yes";
        assert_eq!(is_confirmation(line), expected, "{:?}", line);
    }
}

#[test]
fn white_space_agrees_with_std_on_every_character() {
    let mut code: u32 = 0;
    while code <= 0x10ffff {
        if let Some(c) = char::from_u32(code) {
            assert_eq!(is_white_space(c), c.is_whitespace(), "U+{:04X}", code);
        }
        code += 1;
    }
}

#[test]
fn white_space_examples() {
    assert!(is_white_space(' '));
    assert!(is_white_space('\n'));
    assert!(is_white_space('\r'));
    assert!(is_white_space('\t'));
    assert!(is_white_space('\u{b}'));
    assert!(is_white_space('\u{c}'));
    assert!(is_white_space('\u{200a}'));
    assert!(!is_white_space('\u{8}'));
    assert!(!is_white_space('\u{e}'));
    assert!(!is_white_space('\u{200b}'));
    assert!(!is_white_space('y'));
    assert!(!is_white_space('_'));
}
