use web_shell::strip::{is_break_char, is_control_char, push_without_controls, strip_controls};

fn breaks(text: &str) -> Vec<char> {
    text.chars().filter(|c| matches!(c, '\r' | '\n' | '\t')).collect()
}

#[test]
fn colour_codes_are_removed() {
    assert_eq!(strip_controls("\u{1b}[32mfoo\u{1b}[m bar"), "foo bar");
    assert_eq!(
        strip_controls("\u{1b}[m\u{1b}[m\u{1b}[32m\u{1b}[1m    Finished\u{1b}[m dev"),
        "    Finished dev"
    );
}

#[test]
fn cursor_movement_is_removed() {
    assert_eq!(strip_controls("\u{1b}[2J\u{1b}[Hhello\u{1b}[10;20H!"), "hello!");
    assert_eq!(strip_controls("up\u{1b}[Aup"), "upup");
}

#[test]
fn window_titles_are_removed() {
    assert_eq!(strip_controls("\u{1b}]0;title\u{7}text"), "text");
}

#[test]
fn plain_text_is_left_alone() {
    assert_eq!(strip_controls(""), "");
    assert_eq!(strip_controls("plain text"), "plain text");
    assert_eq!(strip_controls("gr\u{fc}n \u{4f60}\u{597d}"), "gr\u{fc}n \u{4f60}\u{597d}");
}

#[test]
fn line_feeds_carriage_returns_and_tabs_stay() {
    assert_eq!(strip_controls("a\r\nb\tc\n"), "a\r\nb\tc\n");
    assert_eq!(strip_controls("\t\t\r\r\n\n"), "\t\t\r\r\n\n");
    assert_eq!(strip_controls("\n"), "\n");
    assert_eq!(
        strip_controls("name\tsize\r\n\u{1b}[1mfile\u{1b}[0m\t12\r\n"),
        "name\tsize\r\nfile\t12\r\n"
    );
}

#[test]
fn other_control_characters_are_removed() {
    assert_eq!(strip_controls("a\u{7}b"), "ab");
    assert_eq!(strip_controls("a\u{0}b\u{8}c"), "abc");
    assert_eq!(strip_controls("a\u{9b}b"), "ab");
    assert_eq!(strip_controls("a\u{85}b"), "ab");
}

#[test]
fn delete_is_no_control_character_here() {
    assert_eq!(strip_controls("a\u{7f}b"), "a\u{7f}b");
    assert_eq!(strip_controls("\u{1b}[1ma\u{7f}b"), "a\u{7f}b");
}

#[test]
fn sequences_cut_short_are_dropped() {
    assert_eq!(strip_controls("abc\u{1b}["), "abc");
    assert_eq!(strip_controls("abc\u{1b}"), "abc");
    assert_eq!(strip_controls("abc\u{1b}[31"), "abc");
}

#[test]
fn a_break_ends_a_sequence() {
    assert_eq!(strip_controls("\u{1b}[3\n1mx"), "\n1mx");
    assert_eq!(strip_controls("\u{1b}]0;ti\ttle\u{7}x"), "\ttlex");
}

#[test]
fn breaks_are_kept_in_number_and_order() {
    let samples = [
        "",
        "no breaks",
        "a\nb\rc\td",
        "\u{1b}[31m\tred\u{1b}[0m\r\n\u{1b}[32m\tgreen\u{1b}[0m\r\n",
        "\r\u{1b}[K 50%\r\u{1b}[K100%\n",
        "\u{1b}[\n\u{1b}]\t\u{1b}\r",
        "\u{7}\n\u{8}\t\u{0}\r",
    ];
    for sample in samples {
        assert_eq!(breaks(&strip_controls(sample)), breaks(sample), "{sample:?}");
    }
}

#[test]
fn stripping_twice_is_stripping_once() {
    let samples = [
        "",
        "plain",
        "\u{1b}[32mfoo\u{1b}[m bar",
        "a\r\nb\tc",
        "\u{1b}\u{1b}[[31m31m",
        "\u{1b}[3\n1mx",
        "x\u{1b}]0;t\u{1b}\\y",
        "\u{9b}31mz",
        "a\u{7f}\u{1b}[0mb",
    ];
    for sample in samples {
        let once = strip_controls(sample);
        assert_eq!(strip_controls(&once), once, "{sample:?}");
    }
}

#[test]
fn nothing_but_breaks_is_left_of_the_control_characters() {
    let mut all = String::new();
    for code in 0u32..=0x9f {
        all.push(char::from_u32(code).unwrap());
        all.push('x');
    }
    let stripped = strip_controls(&all);
    assert!(stripped
        .chars()
        .all(|c| !is_control_char(c) || is_break_char(c)));
    assert_eq!(breaks(&stripped), vec!['\t', '\n', '\r']);
}

#[test]
fn breaks_are_control_characters_that_stay() {
    for c in ['\r', '\n', '\t'] {
        assert!(is_break_char(c));
        assert!(is_control_char(c));
    }
    for c in ['a', ' ', '\u{1b}', '\u{7f}', '\u{a0}'] {
        assert!(!is_break_char(c));
    }
    assert!(is_control_char('\u{0}'));
    assert!(is_control_char('\u{1b}'));
    assert!(is_control_char('\u{1f}'));
    assert!(!is_control_char(' '));
    assert!(!is_control_char('\u{7f}'));
    assert!(is_control_char('\u{80}'));
    assert!(is_control_char('\u{9f}'));
    assert!(!is_control_char('\u{a0}'));
}

#[test]
fn control_characters_are_left_out_of_what_the_parser_returns() {
    let parsed: Vec<char> = "a\u{7}b\nc\u{9b}\u{1b}d\te\u{7f}".chars().collect();
    let mut kept: Vec<char> = vec!['>'];
    push_without_controls(&parsed, &mut kept);
    assert_eq!(kept, vec!['>', 'a', 'b', 'c', 'd', 'e', '\u{7f}']);
}

#[test]
fn what_is_printable_is_kept_as_it_is() {
    let parsed: Vec<char> = "plain \u{fc}\u{4f60}".chars().collect();
    let mut kept: Vec<char> = Vec::new();
    push_without_controls(&parsed, &mut kept);
    assert_eq!(kept, parsed);
    push_without_controls(&Vec::new(), &mut kept);
    assert_eq!(kept, parsed);
}
