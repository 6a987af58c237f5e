//! The stream pumps' framing rules.
//!
//! Two background readers drain the child's output: a line pump on stdout
//! and a chunk pump on stderr.  Reading the pipes is the shell's work; each
//! piece of raw input it obtains is handed to a function here, which decides
//! whether a notification is emitted and with what payload.  Read errors and
//! end-of-stream never reach this module: the pump simply stops reading.

use vstd::prelude::*;
use crate::text::{all_ws, is_all_ws, trim_spec, trim_str};

verus! {

/// One trimmed, non-empty line of the child's standard output.
#[derive(Clone, Debug)]
pub struct StdoutNotification {
    /// The operation tag captured at launch.
    pub op: String,
    /// The line, trimmed of leading and trailing whitespace.
    pub line: String,
}

/// One raw decoded chunk of the child's standard error.
#[derive(Clone, Debug)]
pub struct StderrNotification {
    /// The operation tag captured at launch.
    pub op: String,
    /// The decoded chunk, not trimmed; only chunks that are entirely
    /// whitespace are suppressed.
    pub chunk: String,
}

/// What the line pump emits for one line read from stdout: the trimmed
/// line, or nothing when the line is empty after trimming.
pub open spec fn stdout_decision(line: Seq<char>) -> Option<Seq<char>> {
    if trim_spec(line).len() == 0 {
        None
    } else {
        Some(trim_spec(line))
    }
}

/// What the chunk pump emits for one decoded chunk read from stderr: the
/// chunk unchanged, or nothing when it is entirely whitespace (in
/// particular, when it is empty).
pub open spec fn stderr_decision(chunk: Seq<char>) -> Option<Seq<char>> {
    if all_ws(chunk) {
        None
    } else {
        Some(chunk)
    }
}

/// The tolerant decoding of a byte chunk into text: invalid sequences are
/// replaced, never fatal.  The result is a function of the bytes alone.
pub uninterp spec fn lossy_decode(bytes: Seq<u8>) -> Seq<char>;

/// Relies on `String::from_utf8_lossy`: decodes the bytes as UTF-8,
/// replacing invalid sequences with U+FFFD; the result depends on the bytes
/// alone, and no bytes decode to no text.
#[verifier::external_body]
fn decode_lossy(bytes: &[u8]) -> (r: String)
    ensures
        r@ == lossy_decode(bytes@),
        bytes@.len() == 0 ==> r@.len() == 0,
{
    String::from_utf8_lossy(bytes).into_owned()
}

/// Frame one line read from the child's stdout.  The line is trimmed; if
/// anything remains, a notification carrying the operation tag and the
/// trimmed text is emitted, otherwise none.
pub fn stdout_line_notification(op: &str, line: &str) -> (r: Option<StdoutNotification>)
    ensures
        match r {
            Some(n) => stdout_decision(line@) == Some(n.line@) && n.op@ == op@,
            None => stdout_decision(line@) is None,
        },
{
    let t = trim_str(line);
    if t.as_str().is_empty() {
        None
    } else {
        Some(StdoutNotification { op: op.to_owned(), line: t })
    }
}

/// Frame one chunk read from the child's stderr.  The bytes are decoded
/// tolerantly; if the decoded text is not entirely whitespace, a
/// notification carrying the operation tag and the untrimmed text is
/// emitted, otherwise none.
pub fn stderr_chunk_notification(op: &str, bytes: &[u8]) -> (r: Option<StderrNotification>)
    ensures
        match r {
            Some(n) => stderr_decision(lossy_decode(bytes@)) == Some(n.chunk@) && n.op@ == op@,
            None => stderr_decision(lossy_decode(bytes@)) is None,
        },
        bytes@.len() == 0 ==> r is None,
{
    let chunk = decode_lossy(bytes);
    if is_all_ws(chunk.as_str()) {
        None
    } else {
        Some(StderrNotification { op: op.to_owned(), chunk })
    }
}

/// Whitespace is suppressed: a line that is empty after trimming produces
/// no stdout notification, and a chunk that is empty or entirely
/// whitespace produces no stderr notification.
pub proof fn lemma_ws_suppressed(line: Seq<char>, chunk: Seq<char>)
    ensures
        trim_spec(line).len() == 0 ==> stdout_decision(line) is None,
        all_ws(line) ==> stdout_decision(line) is None,
        all_ws(chunk) ==> stderr_decision(chunk) is None,
        chunk.len() == 0 ==> stderr_decision(chunk) is None,
{
    if all_ws(line) {
        crate::text::lemma_trim_all_ws(line);
    }
}

} // verus!
