use web_shell::chars::{chars_of, same_text, string_of};
use web_shell::command::{is_space_char, parse_command, trim, Command};

fn trimmed(text: &str) -> String {
    trim(&text.chars().collect()).into_iter().collect()
}

#[test]
fn exit_is_reserved() {
    assert_eq!(parse_command("exit"), Command::Exit);
}

#[test]
fn only_the_bare_word_exits() {
    assert_eq!(parse_command("exit "), Command::Run("exit ".to_string()));
    assert_eq!(parse_command(" exit"), Command::Run(" exit".to_string()));
    assert_eq!(parse_command("EXIT"), Command::Run("EXIT".to_string()));
    assert_eq!(parse_command("exit 1"), Command::Run("exit 1".to_string()));
}

#[test]
fn cd_and_a_space_change_the_directory() {
    assert_eq!(parse_command("cd /tmp"), Command::ChangeDirectory("/tmp".to_string()));
    assert_eq!(parse_command("cd .."), Command::ChangeDirectory("..".to_string()));
    assert_eq!(parse_command("cd sub/dir"), Command::ChangeDirectory("sub/dir".to_string()));
}

#[test]
fn the_path_is_trimmed() {
    assert_eq!(parse_command("cd   /tmp  "), Command::ChangeDirectory("/tmp".to_string()));
    assert_eq!(parse_command("cd \t/tmp\r\n"), Command::ChangeDirectory("/tmp".to_string()));
    assert_eq!(
        parse_command("cd  my documents "),
        Command::ChangeDirectory("my documents".to_string())
    );
}

#[test]
fn the_path_may_be_empty() {
    assert_eq!(parse_command("cd "), Command::ChangeDirectory(String::new()));
    assert_eq!(parse_command("cd    "), Command::ChangeDirectory(String::new()));
}

#[test]
fn cd_without_the_space_is_an_ordinary_command() {
    assert_eq!(parse_command("cd"), Command::Run("cd".to_string()));
    assert_eq!(parse_command("cd\t/tmp"), Command::Run("cd\t/tmp".to_string()));
    assert_eq!(parse_command("cdrom"), Command::Run("cdrom".to_string()));
    assert_eq!(parse_command(" cd /tmp"), Command::Run(" cd /tmp".to_string()));
    assert_eq!(parse_command("CD /tmp"), Command::Run("CD /tmp".to_string()));
}

#[test]
fn other_lines_run_as_they_stand() {
    assert_eq!(parse_command("pwd"), Command::Run("pwd".to_string()));
    assert_eq!(parse_command(""), Command::Run(String::new()));
    assert_eq!(
        parse_command("  echo 'a b'  | wc -c "),
        Command::Run("  echo 'a b'  | wc -c ".to_string())
    );
    assert_eq!(parse_command("echo \u{4f60}\u{597d}"), Command::Run("echo \u{4f60}\u{597d}".to_string()));
}

#[test]
fn white_space_is_what_std_calls_white_space() {
    for code in 0u32..=0x10ffff {
        if let Some(c) = char::from_u32(code) {
            assert_eq!(is_space_char(c), c.is_whitespace(), "U+{code:04X}");
        }
    }
}

#[test]
fn trimming_is_what_std_trims() {
    let samples = [
        "",
        " ",
        "a",
        " a",
        "a ",
        "  a b  ",
        "\t\r\n a\u{a0}b \u{3000}\u{2003}",
        "\u{85}x\u{85}",
        " \u{200b} ",
        "   ",
        "no space",
    ];
    for sample in samples {
        assert_eq!(trimmed(sample), sample.trim(), "{sample:?}");
    }
}

#[test]
fn trimming_keeps_the_inside() {
    assert_eq!(trimmed("  a  b  "), "a  b");
    assert_eq!(trimmed("\ta\tb\t"), "a\tb");
}

#[test]
fn strings_and_their_characters() {
    assert_eq!(chars_of("a\u{fc}\u{4f60}"), vec!['a', '\u{fc}', '\u{4f60}']);
    assert_eq!(chars_of(""), Vec::<char>::new());
    assert_eq!(string_of(&vec!['a', '\u{fc}', '\u{4f60}']), "a\u{fc}\u{4f60}");
    assert_eq!(string_of(&Vec::new()), "");
}

#[test]
fn same_text_compares_character_by_character() {
    assert!(same_text("", ""));
    assert!(same_text("exit", "exit"));
    assert!(!same_text("exit", "exit "));
    assert!(!same_text("exit", "exid"));
    assert!(!same_text("a", ""));
    assert!(same_text("\u{4f60}\u{597d}", "\u{4f60}\u{597d}"));
}
