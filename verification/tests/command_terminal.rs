//! One-shot command validation, mode selection, and the terminal-mode
//! lifecycle.

use kuasarctl::command::{
    join_command_words, select_mode, validate_command, CommandError, ExecMode, MAX_CMD_LENGTH,
};
use kuasarctl::terminal::{raw_mode_of, TermMode, TerminalSession};

#[test]
fn test_validate_command_rejects_null_byte() {
    let r = validate_command("echo hi\0there");
    assert!(matches!(r, Err(CommandError::ContainsNull)));
}

#[test]
fn test_validate_command_rejects_too_long() {
    let long = "a".repeat(MAX_CMD_LENGTH + 1);
    assert!(matches!(validate_command(&long), Err(CommandError::TooLong)));
    let at_limit = "a".repeat(MAX_CMD_LENGTH);
    assert!(validate_command(&at_limit).is_ok());
}

#[test]
fn test_validate_command_null_checked_before_length() {
    let mut long = "a".repeat(MAX_CMD_LENGTH + 1);
    long.push('\0');
    assert!(matches!(validate_command(&long), Err(CommandError::ContainsNull)));
}

#[test]
fn test_validate_command_accepts_plain_command() {
    assert!(validate_command("ls -la /tmp").is_ok());
    assert!(validate_command("").is_ok());
}

#[test]
fn test_join_command_words() {
    let words = vec!["ls".to_string(), "-la".to_string(), "/tmp".to_string()];
    assert_eq!(join_command_words(&words), "ls -la /tmp");
    assert_eq!(join_command_words(&vec!["pwd".to_string()]), "pwd");
    assert_eq!(join_command_words(&Vec::new()), "");
}

#[test]
fn test_select_mode_interactive_needs_both_flags_and_no_command() {
    assert!(matches!(select_mode(true, true, false), ExecMode::Interactive));
    assert!(matches!(select_mode(true, false, false), ExecMode::Basic));
    assert!(matches!(select_mode(false, true, false), ExecMode::Basic));
    assert!(matches!(select_mode(true, true, true), ExecMode::Command));
    assert!(matches!(select_mode(false, false, true), ExecMode::Command));
    assert!(matches!(select_mode(false, false, false), ExecMode::Basic));
}

#[test]
fn test_raw_mode_disables_echo_and_canonical_keeps_isig() {
    let initial = TermMode { echo: true, canonical: true, isig: true, opost: false };
    let raw = raw_mode_of(&initial);
    assert!(!raw.echo);
    assert!(!raw.canonical);
    assert!(raw.isig);
    assert!(raw.opost);

    let no_isig = TermMode { echo: true, canonical: true, isig: false, opost: false };
    assert!(!raw_mode_of(&no_isig).isig);
}

#[test]
fn test_terminal_restore_round_trip() {
    let initial = TermMode { echo: true, canonical: true, isig: true, opost: false };
    let mut session = TerminalSession::capture(initial);
    let raw = session.enter_raw();
    assert!(!raw.echo);
    assert!(!raw.canonical);

    let to_apply = session.restore();
    assert_eq!(to_apply, Some(initial));
    assert_eq!(session.current, initial);
    assert_eq!(session.current.echo, initial.echo);
    assert_eq!(session.current.canonical, initial.canonical);
}

#[test]
fn test_terminal_restore_applies_only_once() {
    let initial = TermMode { echo: true, canonical: false, isig: true, opost: true };
    let mut session = TerminalSession::capture(initial);
    session.enter_raw();
    assert_eq!(session.restore(), Some(initial));
    assert_eq!(session.restore(), None);
    assert_eq!(session.current, initial);
}
