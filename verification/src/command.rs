//! The one-shot command mode: the words of the command are joined with
//! spaces, validated, and written once to the channel, after which only the
//! downstream copy loop runs.
//!
//! Validation rejects embedded null bytes and over-long commands before any
//! byte reaches the channel.

use crate::strutil::{join_strings, join_with};
use vstd::prelude::*;
use vstd::string::StringSliceAdditionalSpecFns;

verus! {

/// Longest command line accepted, in bytes.
pub const MAX_CMD_LENGTH: usize = 4096;

/// Why a command line was rejected before anything was sent.
pub enum CommandError {
    ContainsNull,
    TooLong,
}

/// The bytes contain an embedded null.
pub open spec fn has_null(bytes: Seq<u8>) -> bool {
    exists|i: int| 0 <= i < bytes.len() && (#[trigger] bytes[i]) == 0u8
}

/// Joins the command words with single spaces, as the command line sent to
/// the remote side.
pub fn join_command_words(words: &Vec<String>) -> (r: String)
    ensures
        r@ == join_with(words.deep_view(), " "@),
{
    join_strings(words, " ")
}

/// Validates a command line before any socket write: a line with an embedded
/// null byte is rejected, then one longer than `MAX_CMD_LENGTH` bytes; every
/// other line is accepted.
pub fn validate_command(cmd_line: &str) -> (r: Result<(), CommandError>)
    ensures
        r == (if has_null(cmd_line.spec_bytes()) {
            Err::<(), CommandError>(CommandError::ContainsNull)
        } else if cmd_line.spec_bytes().len() > MAX_CMD_LENGTH {
            Err::<(), CommandError>(CommandError::TooLong)
        } else {
            Ok::<(), CommandError>(())
        }),
{
    let bytes: &[u8] = cmd_line.as_bytes();
    let n: usize = bytes.len();
    let mut i: usize = 0;
    while i < n
        invariant
            i <= n,
            n == cmd_line.spec_bytes().len(),
            bytes@ == cmd_line.spec_bytes(),
            forall|j: int| 0 <= j < i ==> (#[trigger] bytes@[j]) != 0u8,
        decreases n - i,
    {
        if bytes[i] == 0u8 {
            return Err(CommandError::ContainsNull);
        }
        i = i + 1;
    }
    if n > MAX_CMD_LENGTH {
        return Err(CommandError::TooLong);
    }
    Ok(())
}

/// How a session runs: an interactive terminal, a single command, or a plain
/// byte relay.
pub enum ExecMode {
    Interactive,
    Command,
    Basic,
}

/// Picks the session mode from the flags and whether a command was given: a
/// terminal session needs both terminal flags and no command; a command runs
/// one-shot; anything else is the plain relay.
pub fn select_mode(tty: bool, interactive: bool, has_command: bool) -> (m: ExecMode)
    ensures
        m == (if tty && interactive && !has_command {
            ExecMode::Interactive
        } else if has_command {
            ExecMode::Command
        } else {
            ExecMode::Basic
        }),
{
    if tty && interactive && !has_command {
        ExecMode::Interactive
    } else if has_command {
        ExecMode::Command
    } else {
        ExecMode::Basic
    }
}

} // verus!
