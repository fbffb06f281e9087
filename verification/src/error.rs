//! The three ways in which a tmux command fails, told apart by the wording of
//! the message that tmux or the operating system left behind.

use crate::text::{contains_text, occurs_at, occurs_in};
use vstd::prelude::*;

verus! {

/// Why a tmux command failed.
#[derive(Debug)]
pub enum TmuxError {
    /// No tmux server is running yet.
    ServerNotStarted(),
    /// The socket of the tmux server is not there.
    SocketFileNotFound(),
    /// Any other failure, with the message as it came.
    UnknownError(String),
}

/// A [`TmuxError`] as a plain value: the view of the error.
pub enum ErrorKind {
    ServerNotStarted,
    SocketFileNotFound,
    Unknown(Seq<char>),
}

impl View for TmuxError {
    type V = ErrorKind;

    open spec fn view(&self) -> ErrorKind {
        match self {
            TmuxError::ServerNotStarted() => ErrorKind::ServerNotStarted,
            TmuxError::SocketFileNotFound() => ErrorKind::SocketFileNotFound,
            TmuxError::UnknownError(text) => ErrorKind::Unknown(text@),
        }
    }
}

/// The wording by which tmux says that no server is running.
pub open spec fn server_phrase() -> Seq<char> {
    "no server running"@
}

/// The wording by which the operating system says that a file is missing.
pub open spec fn socket_phrase() -> Seq<char> {
    "No such file or directory"@
}

/// The kind of failure that a message stands for. The rules are tried in this
/// order, and the first whose phrase occurs in the message decides; a message
/// with neither phrase is kept as it is.
pub open spec fn classify(msg: Seq<char>) -> ErrorKind {
    if occurs_in(server_phrase(), msg) {
        ErrorKind::ServerNotStarted
    } else if occurs_in(socket_phrase(), msg) {
        ErrorKind::SocketFileNotFound
    } else {
        ErrorKind::Unknown(msg)
    }
}

/// What is shown to the user for a failure of the given kind.
pub open spec fn describe(kind: ErrorKind) -> Seq<char> {
    match kind {
        ErrorKind::ServerNotStarted => "server not started"@,
        ErrorKind::SocketFileNotFound => "socket file not found"@,
        ErrorKind::Unknown(text) => text,
    }
}

/// A failure of this kind only says that the session cannot be there yet.
pub open spec fn is_absence(kind: ErrorKind) -> bool {
    kind is ServerNotStarted || kind is SocketFileNotFound
}

/// A result with its error taken as a plain value.
pub open spec fn plain_view<T>(result: Result<T, TmuxError>) -> Result<T, ErrorKind> {
    match result {
        Ok(value) => Ok(value),
        Err(error) => Err(error@),
    }
}

impl TmuxError {
    /// Classifies a failure by the text of its message.
    pub fn new_with_msg(msg: String) -> (error: Self)
        ensures
            error@ == classify(msg@),
    {
        if contains_text(msg.as_str(), "no server running") {
            return Self::ServerNotStarted();
        } else if contains_text(msg.as_str(), "No such file or directory") {
            return Self::SocketFileNotFound();
        }
        Self::UnknownError(msg)
    }

    /// The line that is shown to the user for this failure.
    pub fn message(&self) -> (line: String)
        ensures
            line@ == describe(self@),
    {
        match self {
            TmuxError::ServerNotStarted() => "server not started".to_owned(),
            TmuxError::SocketFileNotFound() => "socket file not found".to_owned(),
            TmuxError::UnknownError(text) => text.clone(),
        }
    }

    /// Whether this failure only says that no session can exist yet: no server
    /// is running, or its socket is missing.
    pub fn is_absence(&self) -> (benign: bool)
        ensures
            benign == is_absence(self@),
    {
        match self {
            TmuxError::ServerNotStarted() => true,
            TmuxError::SocketFileNotFound() => true,
            TmuxError::UnknownError(_) => false,
        }
    }
}

/// A message that holds the server phrase anywhere, whatever stands before and
/// behind it, is classified as "server not started".
pub proof fn lemma_server_phrase_anywhere(before: Seq<char>, after: Seq<char>)
    ensures
        classify(before + server_phrase() + after) == ErrorKind::ServerNotStarted,
{
    let msg = before + server_phrase() + after;
    assert(msg.subrange(before.len() as int, (before.len() + server_phrase().len()) as int)
        =~= server_phrase());
    assert(occurs_at(server_phrase(), msg, before.len() as int));
}

/// A message that holds the socket phrase anywhere, and the server phrase
/// nowhere, is classified as "socket file not found".
pub proof fn lemma_socket_phrase_anywhere(before: Seq<char>, after: Seq<char>)
    requires
        !occurs_in(server_phrase(), before + socket_phrase() + after),
    ensures
        classify(before + socket_phrase() + after) == ErrorKind::SocketFileNotFound,
{
    let msg = before + socket_phrase() + after;
    assert(msg.subrange(before.len() as int, (before.len() + socket_phrase().len()) as int)
        =~= socket_phrase());
    assert(occurs_at(socket_phrase(), msg, before.len() as int));
}

/// A message that holds neither phrase is classified as unknown and keeps its
/// text character for character, so that the user is shown what came.
pub proof fn lemma_other_text_kept(msg: Seq<char>)
    requires
        !occurs_in(server_phrase(), msg),
        !occurs_in(socket_phrase(), msg),
    ensures
        classify(msg) == ErrorKind::Unknown(msg),
        describe(classify(msg)) == msg,
{
}

/// The classification depends on the text alone, and the two phrases are the
/// only way to the two named kinds.
pub proof fn lemma_classified_by_text(msg: Seq<char>)
    ensures
        classify(msg) is ServerNotStarted <==> occurs_in(server_phrase(), msg),
        classify(msg) is SocketFileNotFound <==> !occurs_in(server_phrase(), msg) && occurs_in(
            socket_phrase(),
            msg,
        ),
        classify(msg) is Unknown ==> classify(msg) == ErrorKind::Unknown(msg),
{
}

} // verus!
