//! Subprocesses as the gateway sees them: what to run, and what came back.

use vstd::prelude::*;
use vstd::utf8::{decode_utf8, valid_utf8};

verus! {

/// A program to run, with its arguments in order.
#[derive(Clone, Debug, PartialEq, Eq)]
pub struct Invocation {
    pub program: String,
    pub args: Vec<String>,
}

/// An `Invocation` with its texts as character sequences.
pub struct InvocationView {
    pub program: Seq<char>,
    pub args: Seq<Seq<char>>,
}

impl View for Invocation {
    type V = InvocationView;

    open spec fn view(&self) -> InvocationView {
        InvocationView { program: self.program@, args: self.args.deep_view() }
    }
}

/// What a subprocess left behind when it exited.
#[derive(Clone, Debug, PartialEq, Eq)]
pub struct ProcessResult {
    pub success: bool,
    pub stdout: String,
    pub stderr: String,
}

/// A `ProcessResult` with its texts as character sequences.
pub struct ProcessResultView {
    pub success: bool,
    pub stdout: Seq<char>,
    pub stderr: Seq<char>,
}

impl View for ProcessResult {
    type V = ProcessResultView;

    open spec fn view(&self) -> ProcessResultView {
        ProcessResultView { success: self.success, stdout: self.stdout@, stderr: self.stderr@ }
    }
}

/// How the attempt to run a subprocess ended.
#[derive(Clone, Debug, PartialEq, Eq)]
pub enum SpawnOutcome {
    /// The subprocess ran until it exited.
    Exited(ProcessResult),
    /// The operating system did not start it.
    Refused { reason: String },
}

/// A `SpawnOutcome` with its texts as character sequences.
pub enum SpawnOutcomeView {
    Exited(ProcessResultView),
    Refused { reason: Seq<char> },
}

impl View for SpawnOutcome {
    type V = SpawnOutcomeView;

    open spec fn view(&self) -> SpawnOutcomeView {
        match self {
            SpawnOutcome::Exited(result) => SpawnOutcomeView::Exited(result@),
            SpawnOutcome::Refused { reason } => SpawnOutcomeView::Refused { reason: reason@ },
        }
    }
}

/// The text that `String::from_utf8_lossy` makes of `bytes`: their decoding
/// as UTF-8, with U+FFFD in place of what is not UTF-8.
pub uninterp spec fn lossy_text(bytes: Seq<u8>) -> Seq<char>;

/// Calls `String::from_utf8_lossy`. It takes every byte sequence; what it
/// makes of one is named `lossy_text`, and bytes that are UTF-8 are decoded
/// as they stand.
#[verifier::external_body]
fn decode_lossy(bytes: &[u8]) -> (text: String)
    ensures
        text@ == lossy_text(bytes@),
        valid_utf8(bytes@) ==> text@ == decode_utf8(bytes@),
{
    String::from_utf8_lossy(bytes).into_owned()
}

/// A subprocess succeeded if it exited, and with the code zero.
pub open spec fn exit_success(exit_code: Option<i32>) -> bool {
    exit_code == Some(0i32)
}

impl ProcessResult {
    /// Reads what was captured of a subprocess that exited: its exit code,
    /// if it left one, and its output as text. Bytes that are not UTF-8 are
    /// replaced, never refused.
    pub fn from_captured(exit_code: Option<i32>, stdout: &[u8], stderr: &[u8]) -> (result:
        ProcessResult)
        ensures
            result@ == (ProcessResultView {
                success: exit_success(exit_code),
                stdout: lossy_text(stdout@),
                stderr: lossy_text(stderr@),
            }),
            valid_utf8(stdout@) ==> result@.stdout == decode_utf8(stdout@),
            valid_utf8(stderr@) ==> result@.stderr == decode_utf8(stderr@),
    {
        let success = match exit_code {
            Some(code) => code == 0,
            None => false,
        };
        ProcessResult { success, stdout: decode_lossy(stdout), stderr: decode_lossy(stderr) }
    }
}

} // verus!
