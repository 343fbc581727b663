//! What the readers of the helper process's two output streams do with a line.
//!
//! The standard output carries one message per line. Taking the text of a
//! line apart into a JSON tree is left to the caller; what happens with the
//! line and with the outcome of that parsing is decided here. The standard
//! error carries diagnostics, which are relayed and never parsed.
use crate::reconciler::{after_message, handle_message, message_effects, Effects};
use crate::types::{AppState, MessageModel, SidecarMessage};
use crate::wire::{decode_message, error_text, message_of, Json};
use vstd::prelude::*;
use vstd::string::StringExecFns;

verus! {

/// What is left of a line once leading and trailing white space is removed,
/// as `str::trim` of the standard library defines it.
pub uninterp spec fn trimmed(line: Seq<char>) -> Seq<char>;

/// `str::trim` of the standard library. Claimed of it: the characters of the
/// slice it returns depend on the characters of the line alone. Nothing is
/// claimed of which characters count as white space.
#[verifier::external_body]
pub(crate) fn trim_line(line: &str) -> (rest: &str)
    ensures
        rest@ == trimmed(line@),
{
    line.trim()
}

/// A line that holds white space only.
pub open spec fn blank(line: Seq<char>) -> bool {
    trimmed(line).len() == 0
}

/// Tells whether a line holds white space only.
pub fn is_blank_line(line: &str) -> (yes: bool)
    ensures
        yes == blank(line@),
{
    trim_line(line).is_empty()
}

/// What became of a line of the standard output.
#[derive(Clone, Debug, PartialEq, Eq)]
pub enum LineOutcome {
    /// The line was blank and was passed over.
    Blank,
    /// The line held no message; it was dropped, and this is to be logged.
    Rejected { log: String },
    /// The line's message was applied to the state.
    Applied(Effects),
}

/// The log entry for a line that could not be decoded.
pub open spec fn rejection_log(error: Seq<char>, line: Seq<char>) -> Seq<char> {
    "Failed to parse sidecar message: "@ + error + " - "@ + line
}

/// Deals with a line that is not blank, given what decoding it gave. A
/// message is applied to the state. A line without one leaves the state
/// exactly as it was and yields one log entry.
pub fn handle_decoded(
    state: &mut AppState,
    line: &str,
    decoded: Result<SidecarMessage, String>,
    now: u64,
) -> (outcome: LineOutcome)
    ensures
        match decoded {
            Ok(message) => {
                &&& final(state)@ == after_message(old(state)@, message@, now)
                &&& outcome == LineOutcome::Applied(message_effects(old(state)@, message@, now))
            },
            Err(error) => {
                &&& *final(state) == *old(state)
                &&& outcome matches LineOutcome::Rejected { log }
                &&& log@ == rejection_log(error@, line@)
            },
        },
{
    match decoded {
        Ok(message) => LineOutcome::Applied(handle_message(state, message, now)),
        Err(error) => {
            let log = String::from_str("Failed to parse sidecar message: ").concat(
                error.as_str(),
            ).concat(" - ").concat(line);
            LineOutcome::Rejected { log }
        },
    }
}

/// The message of a line, given what parsing its text gave: that of the JSON
/// tree where the text was JSON and the tree is a message, and otherwise the
/// reason why there is none, in words.
pub open spec fn line_message(parsed: Result<Json, String>) -> Result<MessageModel, Seq<char>> {
    match parsed {
        Ok(json) => match message_of(json) {
            Ok(message) => Ok(message),
            Err(error) => Err(error_text(error)),
        },
        Err(reason) => Err(reason@),
    }
}

/// Decodes the message of a line from what parsing its text gave.
pub fn decode_line(parsed: Result<Json, String>) -> (decoded: Result<SidecarMessage, String>)
    ensures
        match decoded {
            Ok(message) => line_message(parsed) == Ok::<MessageModel, Seq<char>>(message@),
            Err(reason) => line_message(parsed) == Err::<MessageModel, Seq<char>>(reason@),
        },
{
    match parsed {
        Ok(json) => match decode_message(&json) {
            Ok(message) => Ok(message),
            Err(error) => Err(error.describe()),
        },
        Err(reason) => Err(reason),
    }
}

/// Deals with a line of the standard output, given what parsing its text as
/// JSON gave. A blank line is passed over, whatever the parsing made of it. A
/// line that holds a message has it applied to the state. Any other line, be
/// it no JSON or no message, leaves the state exactly as it was and yields
/// one log entry.
pub fn handle_line(
    state: &mut AppState,
    line: &str,
    parsed: Result<Json, String>,
    now: u64,
) -> (outcome: LineOutcome)
    ensures
        blank(line@) ==> *final(state) == *old(state) && outcome == LineOutcome::Blank,
        !blank(line@) ==> match line_message(parsed) {
            Ok(message) => {
                &&& final(state)@ == after_message(old(state)@, message, now)
                &&& outcome == LineOutcome::Applied(message_effects(old(state)@, message, now))
            },
            Err(reason) => {
                &&& *final(state) == *old(state)
                &&& outcome matches LineOutcome::Rejected { log }
                &&& log@ == rejection_log(reason, line@)
            },
        },
{
    if is_blank_line(line) {
        LineOutcome::Blank
    } else {
        handle_decoded(state, line, decode_line(parsed), now)
    }
}

/// The diagnostic relayed for a line of the standard error.
pub open spec fn diagnostic(line: Seq<char>) -> Option<Seq<char>> {
    if blank(line) {
        None
    } else {
        Some("[Sidecar] "@ + line)
    }
}

/// Turns a line of the standard error into the diagnostic to log: none for a
/// blank line, the line behind a fixed prefix otherwise.
pub fn relay_diagnostic(line: &str) -> (entry: Option<String>)
    ensures
        match entry {
            Some(text) => diagnostic(line@) == Some(text@),
            None => diagnostic(line@) is None,
        },
{
    if is_blank_line(line) {
        None
    } else {
        Some(String::from_str("[Sidecar] ").concat(line))
    }
}

/// What a read from a stream of the helper process gave.
#[derive(Clone, Copy, Debug, PartialEq, Eq, Structural)]
pub enum ReadEvent {
    /// A line was read.
    Line,
    /// The stream was closed.
    Closed,
    /// The read failed.
    Failed,
}

/// Whether a reader goes on after a read: it does after a line, and ends for
/// good when the stream is closed or a read fails.
pub fn reader_continues(event: ReadEvent) -> (yes: bool)
    ensures
        yes == (event is Line),
{
    match event {
        ReadEvent::Line => true,
        _ => false,
    }
}

} // verus!
