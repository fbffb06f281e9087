//! The session controller: the command lines that tmux is driven with, and the
//! reading of what each of them leaves behind.

use crate::error::{
    classify, plain_view, server_phrase, socket_phrase, ErrorKind, TmuxError,
};
use crate::outcome::{
    from_utf8_lossy, lossy_text, succeeded, Attachment, AttachmentView, CommandOutcome, Execution,
    ExecutionView, OutcomeView,
};
use crate::text::{
    has_line, has_line_text, lemma_listing_lines, listing_of, occurs_at, plain_name,
};
use vstd::prelude::*;
use vstd::string::StringExecFns;
use vstd::utf8::{encode_utf8, encode_utf8_decode_utf8, encode_utf8_valid_utf8};

verus! {

/// The tokens that `comma::parse_command` splits a command line into, or none
/// where it rejects the line.
pub uninterp spec fn parsed_command(input: Seq<char>) -> Option<Seq<Seq<char>>>;

/// The line holds no quotation mark and no backslash, so that its white space
/// alone decides where its tokens end.
pub open spec fn unquoted(line: Seq<char>) -> bool {
    forall|i: int|
        0 <= i < line.len() ==> line[i] != '\'' && line[i] != '"' && line[i] != '\\'
}

/// Calls `comma::parse_command`, which splits a command line at white space,
/// with quotes and backslash escapes. Believed of it, not proved: the tokens
/// depend on the line alone, and a line is rejected only for a quotation mark
/// without its counterpart or a backslash with nothing behind it, so never
/// where it holds neither character.
#[verifier::external_body]
fn parse_command(input: &str) -> (tokens: Option<Vec<String>>)
    ensures
        tokens.deep_view() == parsed_command(input@),
        unquoted(input@) ==> tokens is Some,
{
    comma::parse_command(input)
}

/// The fixed part of the command line that creates a detached session: the
/// name of the session follows it as one more argument.
pub open spec fn new_session_line() -> Seq<char> {
    "new-session -d -s"@
}

/// The fixed part of the command line that lists the names of all sessions:
/// the format of a line of the listing follows it as one more argument.
pub open spec fn list_sessions_line() -> Seq<char> {
    "list-sessions -F"@
}

/// The format that makes each line of the listing the name of one session.
pub open spec fn session_name_format() -> Seq<char> {
    "#{session_name}"@
}

/// The command line that splits the current window into an upper and a lower
/// pane.
pub open spec fn split_vertical_line() -> Seq<char> {
    "split-window -v"@
}

/// The command line that splits the current window into a left and a right
/// pane.
pub open spec fn split_horizontal_line() -> Seq<char> {
    "split-window -h"@
}

/// The fixed part of the command line that attaches the terminal to a
/// session: the target follows it as one more argument.
pub open spec fn attach_session_line() -> Seq<char> {
    "attach-session"@
}

/// The argument that names the session to attach to: the flag and the name,
/// written together.
pub open spec fn attach_target(name: Seq<char>) -> Seq<char> {
    "-t"@ + name
}

/// The arguments are the tokens of the fixed command line `line`, followed by
/// `last` as one argument of its own, whatever characters it holds.
pub open spec fn line_then(line: Seq<char>, last: Seq<char>, args: Seq<Seq<char>>) -> bool {
    &&& args.len() > 0
    &&& parsed_command(line) == Some(args.drop_last())
    &&& args.last() == last
}

/// What is reported where the attaching process cannot be started.
pub open spec fn unable_to_start() -> Seq<char> {
    "tmux unable to start"@
}

/// What a captured run comes to: the outcome of a command that succeeded, and
/// else the failure that its message stands for. A process that did not start
/// is classified by the system's message, one that ended without success by
/// what it wrote to standard error.
pub open spec fn command_result(exec: ExecutionView) -> Result<OutcomeView, ErrorKind> {
    match exec {
        ExecutionView::SpawnFailed(text) => Err(classify(text)),
        ExecutionView::Finished(outcome) => if succeeded(outcome) {
            Ok(outcome)
        } else {
            Err(classify(lossy_text(outcome.stderr)))
        },
    }
}

/// Whether a session of the given name is there, by the run of the listing
/// command: the name must be one of the lines of its output, exactly.
pub open spec fn session_listed(exec: ExecutionView, name: Seq<char>) -> Result<bool, ErrorKind> {
    match command_result(exec) {
        Ok(outcome) => Ok(has_line(lossy_text(outcome.stdout), name)),
        Err(kind) => Err(kind),
    }
}

/// What an attach comes to: a process that ended has attached, whatever its
/// exit code. One that did not start is an unknown failure with a fixed
/// message; a failed wait is classified by the system's message.
pub open spec fn attach_result(attachment: AttachmentView) -> Result<(), ErrorKind> {
    match attachment {
        AttachmentView::NotSpawned => Err(ErrorKind::Unknown(unable_to_start())),
        AttachmentView::WaitFailed(text) => Err(classify(text)),
        AttachmentView::Exited(_) => Ok(()),
    }
}

/// The result of [`Tmux::command`] as a plain value.
pub open spec fn outcome_view(result: Result<CommandOutcome, TmuxError>) -> Result<
    OutcomeView,
    ErrorKind,
> {
    match result {
        Ok(outcome) => Ok(outcome@),
        Err(error) => Err(error@),
    }
}

/// The message for an attaching process that cannot be started holds neither
/// of the two phrases, so it is reported as it is.
pub proof fn lemma_unable_to_start_unknown()
    ensures
        classify(unable_to_start()) == ErrorKind::Unknown(unable_to_start()),
{
    reveal_strlit("tmux unable to start");
    reveal_strlit("no server running");
    reveal_strlit("No such file or directory");
    let text = unable_to_start();
    assert forall|at: int| !#[trigger] occurs_at(server_phrase(), text, at) by {
        if occurs_at(server_phrase(), text, at) {
            let part = text.subrange(at, at + server_phrase().len());
            assert(part[0] == server_phrase()[0]);
            assert(text[at] == 'n');
        }
    }
    assert forall|at: int| !#[trigger] occurs_at(socket_phrase(), text, at) by {
        assert(socket_phrase().len() > text.len());
    }
}

/// Where the listing command succeeded and wrote plain names, one on each
/// line, as UTF-8, a session is reported as there if and only if its name is
/// one of those names: a name that tmux does not list is absent, one that it
/// lists is present, and part of a listed name does not count.
pub proof fn lemma_session_found_iff_listed(
    outcome: OutcomeView,
    names: Seq<Seq<char>>,
    name: Seq<char>,
)
    requires
        succeeded(outcome),
        outcome.stdout == encode_utf8(listing_of(names)),
        forall|i: int| 0 <= i < names.len() ==> plain_name(#[trigger] names[i]),
    ensures
        session_listed(ExecutionView::Finished(outcome), name) == Ok::<bool, ErrorKind>(
            names.contains(name),
        ),
{
    encode_utf8_valid_utf8(listing_of(names));
    encode_utf8_decode_utf8(listing_of(names));
    lemma_listing_lines(names, name);
}

/// The failure of a listing command that ended without success depends on
/// what it wrote to standard error alone: whatever the listing holds, no
/// session is reported.
pub proof fn lemma_failed_listing_is_error(outcome: OutcomeView, name: Seq<char>)
    requires
        !succeeded(outcome),
    ensures
        session_listed(ExecutionView::Finished(outcome), name) == Err::<bool, ErrorKind>(
            classify(lossy_text(outcome.stderr)),
        ),
{
}

/// Appends one argument to the arguments of a fixed command line.
fn followed_by(fixed: Vec<String>, last: String) -> (args: Vec<String>)
    ensures
        args.deep_view().len() > 0,
        args.deep_view().drop_last() == fixed.deep_view(),
        args.deep_view().last() == last@,
{
    let mut args = fixed;
    args.push(last);
    assert(args.deep_view().drop_last() =~= fixed.deep_view());
    args
}

/// The tmux session controller.
pub struct Tmux {}

impl Tmux {
    /// The arguments that make tmux create a detached session of this name.
    /// The name is the last argument as it is: white space, quotation marks
    /// and backslashes in it have no meaning here.
    pub fn new_session(session_name: &str) -> (args: Vec<String>)
        ensures
            line_then(new_session_line(), session_name@, args.deep_view()),
    {
        proof {
            reveal_strlit("new-session -d -s");
        }
        let fixed = parse_command("new-session -d -s").unwrap();
        followed_by(fixed, session_name.to_owned())
    }

    /// The arguments that make tmux list the names of its sessions, one on
    /// each line.
    pub fn list_sessions() -> (args: Vec<String>)
        ensures
            line_then(list_sessions_line(), session_name_format(), args.deep_view()),
    {
        proof {
            reveal_strlit("list-sessions -F");
        }
        let fixed = parse_command("list-sessions -F").unwrap();
        followed_by(fixed, "#{session_name}".to_owned())
    }

    /// Whether a session of this name is there, told from the run of the
    /// command line of [`Tmux::list_sessions`].
    pub fn has_session(session_name: &str, exec: Execution) -> (answer: Result<bool, TmuxError>)
        ensures
            plain_view(answer) == session_listed(exec@, session_name@),
    {
        match Self::command(exec) {
            Ok(outcome) => {
                let listing = from_utf8_lossy(&outcome.stdout);
                Ok(has_line_text(listing.as_str(), session_name))
            },
            Err(error) => Err(error),
        }
    }

    /// The arguments that make tmux split the current window into an upper
    /// and a lower pane.
    pub fn split_vertical() -> (args: Vec<String>)
        ensures
            Some(args.deep_view()) == parsed_command(split_vertical_line()),
    {
        proof {
            reveal_strlit("split-window -v");
        }
        parse_command("split-window -v").unwrap()
    }

    /// The arguments that make tmux split the current window into a left and
    /// a right pane.
    pub fn split_horizontal() -> (args: Vec<String>)
        ensures
            Some(args.deep_view()) == parsed_command(split_horizontal_line()),
    {
        proof {
            reveal_strlit("split-window -h");
        }
        parse_command("split-window -h").unwrap()
    }

    /// The arguments that make tmux attach the terminal to the session of
    /// this name. The name stands behind its flag in the last argument as it
    /// is: white space, quotation marks and backslashes in it have no meaning
    /// here.
    pub fn attach_session(session_name: &str) -> (args: Vec<String>)
        ensures
            line_then(attach_session_line(), attach_target(session_name@), args.deep_view()),
    {
        proof {
            reveal_strlit("attach-session");
        }
        let fixed = parse_command("attach-session").unwrap();
        followed_by(fixed, "-t".to_owned().concat(session_name))
    }

    /// Reads how an attach went.
    pub fn attached(attachment: Attachment) -> (result: Result<(), TmuxError>)
        ensures
            plain_view(result) == attach_result(attachment@),
    {
        proof {
            lemma_unable_to_start_unknown();
        }
        match attachment {
            Attachment::NotSpawned => Err(
                TmuxError::new_with_msg("tmux unable to start".to_owned()),
            ),
            Attachment::WaitFailed(text) => Err(TmuxError::new_with_msg(text)),
            Attachment::Exited(_) => Ok(()),
        }
    }

    /// Reads how a captured run went: the outcome where the command
    /// succeeded, the classified failure where it did not.
    pub fn command(exec: Execution) -> (result: Result<CommandOutcome, TmuxError>)
        ensures
            outcome_view(result) == command_result(exec@),
    {
        match exec {
            Execution::SpawnFailed(text) => Err(TmuxError::new_with_msg(text)),
            Execution::Finished(outcome) => {
                if !outcome.success() {
                    let message = from_utf8_lossy(&outcome.stderr);
                    return Err(TmuxError::new_with_msg(message));
                }
                Ok(outcome)
            },
        }
    }
}

} // verus!
