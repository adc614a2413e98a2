use web_shell::process::{Invocation, Outcome, Output};
use web_shell::decode::decode_text;
use web_shell::service::{available_programs, command_invocation, command_output, AppState};
use web_shell::strip::strip_controls;
use web_shell::shell::Shell;

fn exited(success: bool, stdout: &[u8], stderr: &[u8]) -> Outcome {
    Outcome::Exited(Output::new(success, stdout.to_vec(), stderr.to_vec()).unwrap())
}

#[test]
fn a_command_is_one_argument_behind_the_flag() {
    let state = AppState { shell: Shell::Bash, work_dir: "/srv/work".to_string() };
    assert_eq!(
        command_invocation(&state, "ls -la | head -3"),
        Invocation {
            program: "bash".to_string(),
            arguments: vec!["-c".to_string(), "ls -la | head -3".to_string()],
            directory: Some("/srv/work".to_string()),
        }
    );
}

#[test]
fn cmd_takes_its_command_behind_slash_c() {
    let state = AppState { shell: Shell::CMD, work_dir: "C:\\work".to_string() };
    assert_eq!(
        command_invocation(&state, "dir"),
        Invocation {
            program: "cmd".to_string(),
            arguments: vec!["/c".to_string(), "dir".to_string()],
            directory: Some("C:\\work".to_string()),
        }
    );
}

#[test]
fn the_state_is_copied_whole() {
    let state = AppState { shell: Shell::NU, work_dir: "/srv".to_string() };
    assert_eq!(state.clone(), state);
}

#[test]
fn output_is_standard_output_then_standard_error() {
    assert_eq!(command_output(&exited(true, b"out\n", b"err\n")), "out\nerr\n");
    assert_eq!(command_output(&exited(true, b"out", b"err")), "outerr");
}

#[test]
fn output_without_standard_error_is_standard_output() {
    assert_eq!(command_output(&exited(true, b"/srv/work\n", b"")), "/srv/work\n");
    assert_eq!(command_output(&exited(true, b"", b"")), "");
}

#[test]
fn failure_of_the_command_shows_in_the_text_only() {
    assert_eq!(
        command_output(&exited(false, b"", b"ls: cannot access 'x': No such file or directory\n")),
        "ls: cannot access 'x': No such file or directory\n"
    );
    assert_eq!(
        command_output(&exited(false, b"partial\n", b"then failed\n")),
        command_output(&exited(true, b"partial\n", b"then failed\n"))
    );
}

#[test]
fn a_process_that_did_not_start_is_shown_by_the_reason() {
    let outcome = Outcome::NotStarted("No such file or directory (os error 2)".to_string());
    assert_eq!(command_output(&outcome), "No such file or directory (os error 2)");
}

#[test]
fn the_reason_is_shown_as_it_was_given() {
    let outcome = Outcome::NotStarted("\u{1b}[31mdenied\u{1b}[0m".to_string());
    assert_eq!(command_output(&outcome), "\u{1b}[31mdenied\u{1b}[0m");
}

#[test]
fn output_loses_its_colours_and_keeps_its_layout() {
    let outcome = exited(true, b"\x1b[1;34mdir\x1b[0m\tfile\r\n", b"\x1b[31mwarn\x1b[0m\n");
    assert_eq!(command_output(&outcome), "dir\tfile\r\nwarn\n");
}

#[test]
fn output_in_a_legacy_encoding_is_readable() {
    let mut stdout: Vec<u8> = Vec::new();
    stdout.extend_from_slice(b"\x1b[32m");
    stdout.extend_from_slice(&[
        0xc7, 0xfd, 0xb6, 0xaf, 0xc6, 0xf7, 0x20, 0x43, 0x20, 0xd6, 0xd0, 0xb5, 0xc4, 0xbe, 0xed,
        0xc3, 0xbb, 0xd3, 0xd0, 0xb1, 0xea, 0xc7, 0xa9, 0xa1, 0xa3, 0xbe, 0xed, 0xb5, 0xc4, 0xd0,
        0xf2, 0xc1, 0xd0, 0xba, 0xc5, 0xca, 0xc7, 0x20, 0x31, 0x32, 0x33, 0x34, 0x2d, 0x41, 0x42,
        0x43, 0x44,
    ]);
    stdout.extend_from_slice(b"\x1b[0m\r\n");
    let text = command_output(&exited(true, &stdout, b""));
    assert!(!text.is_empty());
    assert!(text.contains("1234-ABCD"));
    assert!(text.contains("\u{9a71}\u{52a8}\u{5668} C"));
    assert!(!text.contains('\u{1b}'));
    assert!(!text.contains("[32m"));
    assert!(text.ends_with("\r\n"));
}

#[test]
fn the_streams_are_joined_before_they_are_decoded() {
    let stdout = [0xc3u8, 0xa9];
    let stderr = [0xffu8];
    let whole = [0xc3u8, 0xa9, 0xff];
    let text = command_output(&exited(true, &stdout, &stderr));
    assert_eq!(text, strip_controls(&decode_text(&whole)));
    let apart = format!("{}{}", decode_text(&stdout), decode_text(&stderr));
    assert_eq!(decode_text(&stdout), "\u{e9}");
    assert_ne!(text, strip_controls(&apart));
}

#[test]
fn a_character_cut_by_the_end_of_a_stream_is_read_whole() {
    let text = command_output(&exited(true, &[b'a', 0xe4, 0xbd], &[0xa0, b'b']));
    assert_eq!(text, "a\u{4f60}b");
}

#[test]
fn a_sequence_cut_by_the_end_of_a_stream_is_removed_whole() {
    let text = command_output(&exited(true, b"\x1b[3", b"1mred\x1b[0m\n"));
    assert_eq!(text, "red\n");
}

#[test]
fn a_record_keeps_what_the_process_left() {
    assert!(Output::new(true, Vec::new(), Vec::new()).is_some());
    let output = Output::new(false, b"out".to_vec(), b"err".to_vec()).unwrap();
    assert!(!output.success());
    assert_eq!(output.stdout(), b"out");
    assert_eq!(output.stderr(), b"err");
    assert_eq!(output.combined(), b"outerr");
    let only_errors = Output::new(true, Vec::new(), b"err".to_vec()).unwrap();
    assert_eq!(only_errors.combined(), b"err");
}

#[test]
fn available_programs_name_the_candidates_that_answered() {
    let probes = vec![
        Outcome::NotStarted("program not found".to_string()),
        exited(true, b"GNU bash, version 5\n", b""),
        exited(true, b"fish, version 3.7.0\n", b""),
        exited(true, b"", b""),
        exited(false, b"", b""),
    ];
    assert_eq!(
        available_programs(&probes),
        vec!["bash".to_string(), "fish".to_string(), "sh".to_string()]
    );
    assert_eq!(available_programs(&Vec::new()), Vec::<String>::new());
}
