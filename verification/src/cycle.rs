//! One execution cycle of the watched command: decoding the captured byte
//! streams, trimming their whitespace envelopes, and turning the exit status
//! into either a cycle result or the session's fatal error.

use crate::text::{spec_trimmed, trim_envelope};
use vstd::prelude::*;

verus! {

/// The fatal error kinds of a watch session. None is retried: each ends the
/// session after the terminal state has been restored.
#[derive(Debug, Clone, Copy, PartialEq, Eq)]
pub enum WatchError {
    /// The terminal could not enter the exclusive display and input mode.
    Terminal,
    /// The watched command exited with a non-zero status; carries the exit
    /// code, when the platform reported one.
    Execution { code: Option<i32> },
    /// The captured output bytes are not valid text.
    OutputDecode,
    /// The shell interpreter itself could not be launched.
    Spawn,
}

/// The captured outcome of one command execution, consumed immediately for
/// rendering and discarded; both texts carry no whitespace envelope.
#[derive(Debug, Clone, PartialEq, Eq)]
pub struct CycleResult {
    /// The child's standard output, decoded and trimmed.
    pub stdout: String,
    /// The child's standard error, decoded and trimmed.
    pub stderr: String,
    /// Whether the child exited successfully.
    pub exit_succeeded: bool,
    /// The child's exit code, when the platform reported one.
    pub exit_code: Option<i32>,
}

/// The mathematical value of a `CycleResult`.
#[verifier::ext_equal]
pub ghost struct CycleView {
    pub stdout: Seq<char>,
    pub stderr: Seq<char>,
    pub exit_succeeded: bool,
    pub exit_code: Option<i32>,
}

impl View for CycleResult {
    type V = CycleView;

    open spec fn view(&self) -> CycleView {
        CycleView {
            stdout: self.stdout@,
            stderr: self.stderr@,
            exit_succeeded: self.exit_succeeded,
            exit_code: self.exit_code,
        }
    }
}

/// The text that a byte sequence decodes to, when it is valid UTF-8; `None`
/// when it is not. A function of the bytes alone.
pub uninterp spec fn utf8_decoded(bytes: Seq<u8>) -> Option<Seq<char>>;

/// Relies on `String::from_utf8`: it returns the text of the bytes exactly
/// when they are valid UTF-8, and what it returns depends on the bytes alone.
#[verifier::external_body]
fn decode_utf8(bytes: Vec<u8>) -> (r: Option<String>)
    ensures
        r is Some <==> utf8_decoded(bytes@) is Some,
        r is Some ==> r.unwrap()@ == utf8_decoded(bytes@).unwrap(),
{
    match String::from_utf8(bytes) {
        Ok(s) => Some(s),
        Err(_) => None,
    }
}

/// What one cycle's captured output means: a non-zero exit is fatal and
/// carries the exit code; bytes that are not valid text are fatal; otherwise
/// the result holds each stream decoded and trimmed of its whitespace
/// envelope.
pub open spec fn spec_cycle_outcome(
    stdout_bytes: Seq<u8>,
    stderr_bytes: Seq<u8>,
    success: bool,
    code: Option<i32>,
) -> Result<CycleView, WatchError> {
    if !success {
        Err(WatchError::Execution { code })
    } else if utf8_decoded(stdout_bytes) is None || utf8_decoded(stderr_bytes) is None {
        Err(WatchError::OutputDecode)
    } else {
        Ok(
            CycleView {
                stdout: spec_trimmed(utf8_decoded(stdout_bytes).unwrap()),
                stderr: spec_trimmed(utf8_decoded(stderr_bytes).unwrap()),
                exit_succeeded: true,
                exit_code: code,
            },
        )
    }
}

/// Turns the raw captured output of one child process run into the cycle
/// result, or into the fatal error that ends the session.
pub fn cycle_outcome(
    stdout_bytes: Vec<u8>,
    stderr_bytes: Vec<u8>,
    success: bool,
    code: Option<i32>,
) -> (r: Result<CycleResult, WatchError>)
    ensures
        r is Ok <==> spec_cycle_outcome(stdout_bytes@, stderr_bytes@, success, code) is Ok,
        r is Ok ==> r->Ok_0@ == spec_cycle_outcome(
            stdout_bytes@,
            stderr_bytes@,
            success,
            code,
        )->Ok_0,
        r is Err ==> r->Err_0 == spec_cycle_outcome(
            stdout_bytes@,
            stderr_bytes@,
            success,
            code,
        )->Err_0,
{
    if !success {
        return Err(WatchError::Execution { code });
    }
    let out_text = match decode_utf8(stdout_bytes) {
        Some(s) => s,
        None => {
            return Err(WatchError::OutputDecode);
        },
    };
    let err_text = match decode_utf8(stderr_bytes) {
        Some(s) => s,
        None => {
            return Err(WatchError::OutputDecode);
        },
    };
    let stdout_trimmed = trim_envelope(out_text.as_str());
    let stderr_trimmed = trim_envelope(err_text.as_str());
    Ok(
        CycleResult {
            stdout: stdout_trimmed,
            stderr: stderr_trimmed,
            exit_succeeded: true,
            exit_code: code,
        },
    )
}

} // verus!
