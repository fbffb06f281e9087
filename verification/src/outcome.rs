//! What a front end reports back after it has run a tmux command line.

use vstd::prelude::*;
use vstd::utf8::{decode_utf8, valid_utf8};

verus! {

/// What a finished command left behind.
#[derive(Debug)]
pub struct CommandOutcome {
    /// The exit code, or none where a signal ended the process.
    pub code: Option<i32>,
    /// The bytes written to standard output.
    pub stdout: Vec<u8>,
    /// The bytes written to standard error.
    pub stderr: Vec<u8>,
}

/// A [`CommandOutcome`] as a plain value.
pub struct OutcomeView {
    pub code: Option<i32>,
    pub stdout: Seq<u8>,
    pub stderr: Seq<u8>,
}

impl View for CommandOutcome {
    type V = OutcomeView;

    open spec fn view(&self) -> OutcomeView {
        OutcomeView { code: self.code, stdout: self.stdout@, stderr: self.stderr@ }
    }
}

/// A command has succeeded when it ended by itself with exit code zero.
pub open spec fn succeeded(outcome: OutcomeView) -> bool {
    outcome.code == Some(0i32)
}

impl CommandOutcome {
    /// Whether the command ended by itself with exit code zero.
    pub fn success(&self) -> (yes: bool)
        ensures
            yes == succeeded(self@),
    {
        match self.code {
            Some(code) => code == 0,
            None => false,
        }
    }
}

/// How the run of a command whose output is captured went.
#[derive(Debug)]
pub enum Execution {
    /// The process could not be started; the text is the system's message.
    SpawnFailed(String),
    /// The process ran to its end.
    Finished(CommandOutcome),
}

/// An [`Execution`] as a plain value.
pub enum ExecutionView {
    SpawnFailed(Seq<char>),
    Finished(OutcomeView),
}

impl View for Execution {
    type V = ExecutionView;

    open spec fn view(&self) -> ExecutionView {
        match self {
            Execution::SpawnFailed(text) => ExecutionView::SpawnFailed(text@),
            Execution::Finished(outcome) => ExecutionView::Finished(outcome@),
        }
    }
}

/// How an interactive attach, which owns the terminal until it ends, went.
#[derive(Debug)]
pub enum Attachment {
    /// The process could not be started.
    NotSpawned,
    /// The process started, but waiting for it failed; the text is the
    /// system's message.
    WaitFailed(String),
    /// The process ended, with this exit code if it ended by itself.
    Exited(Option<i32>),
}

/// An [`Attachment`] as a plain value.
pub enum AttachmentView {
    NotSpawned,
    WaitFailed(Seq<char>),
    Exited(Option<i32>),
}

impl View for Attachment {
    type V = AttachmentView;

    open spec fn view(&self) -> AttachmentView {
        match self {
            Attachment::NotSpawned => AttachmentView::NotSpawned,
            Attachment::WaitFailed(text) => AttachmentView::WaitFailed(text@),
            Attachment::Exited(code) => AttachmentView::Exited(*code),
        }
    }
}

/// The text that `String::from_utf8_lossy` makes of the given bytes.
pub uninterp spec fn utf8_lossy(bytes: Seq<u8>) -> Seq<char>;

/// The text that captured bytes are read as: what they encode where they are
/// valid UTF-8, and else the text in which each invalid sequence is replaced.
pub open spec fn lossy_text(bytes: Seq<u8>) -> Seq<char> {
    if valid_utf8(bytes) {
        decode_utf8(bytes)
    } else {
        utf8_lossy(bytes)
    }
}

/// Calls `String::from_utf8_lossy` and takes the text as an owned string.
/// Believed of it, not proved: the text depends on the bytes alone, and bytes
/// that are valid UTF-8 come back as the text that they encode.
#[verifier::external_body]
pub(crate) fn from_utf8_lossy(bytes: &Vec<u8>) -> (text: String)
    ensures
        text@ == utf8_lossy(bytes@),
        valid_utf8(bytes@) ==> text@ == decode_utf8(bytes@),
{
    String::from_utf8_lossy(bytes.as_slice()).into_owned()
}

} // verus!
