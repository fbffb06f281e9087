//! The order of the commands of one invocation: look for the session, create
//! and split it where it is missing, attach to it. Each decision is taken from
//! what the previous command came to; nothing is tried twice.

use crate::error::{describe, is_absence, plain_view, ErrorKind, TmuxError};
use vstd::prelude::*;

verus! {

/// A command that follows the look for the session.
#[derive(Debug, Clone, Copy, PartialEq, Eq, Structural)]
pub enum Step {
    /// Create the session.
    Create,
    /// Split the window of the new session.
    Split,
    /// Attach the terminal to the session.
    Attach,
}

/// What the front end does next.
#[derive(Debug)]
pub enum Verdict {
    /// Run this command and come back with its result.
    Run(Step),
    /// All is done: leave with exit code zero.
    Finish,
    /// Show this line on standard error and leave with exit code one.
    Fail(String),
}

/// A [`Verdict`] as a plain value.
pub enum VerdictView {
    Run(Step),
    Finish,
    Fail(Seq<char>),
}

impl View for Verdict {
    type V = VerdictView;

    open spec fn view(&self) -> VerdictView {
        match self {
            Verdict::Run(step) => VerdictView::Run(*step),
            Verdict::Finish => VerdictView::Finish,
            Verdict::Fail(line) => VerdictView::Fail(line@),
        }
    }
}

/// What follows the look for the session. A session that is there is attached
/// to at once. One that is missing is created first, and it counts as missing
/// too where the look failed only because no server runs or no socket is
/// there. Any other failure ends the invocation with its message.
pub open spec fn after_check(answer: Result<bool, ErrorKind>) -> VerdictView {
    match answer {
        Ok(found) => if found {
            VerdictView::Run(Step::Attach)
        } else {
            VerdictView::Run(Step::Create)
        },
        Err(kind) => if is_absence(kind) {
            VerdictView::Run(Step::Create)
        } else {
            VerdictView::Fail(describe(kind))
        },
    }
}

/// What follows a command after the look. Every failure, of whatever kind,
/// ends the invocation with its message; a success leads from creating to
/// splitting, from splitting to attaching, and from attaching to the end.
pub open spec fn after_step(step: Step, result: Result<(), ErrorKind>) -> VerdictView {
    match result {
        Err(kind) => VerdictView::Fail(describe(kind)),
        Ok(_) => match step {
            Step::Create => VerdictView::Run(Step::Split),
            Step::Split => VerdictView::Run(Step::Attach),
            Step::Attach => VerdictView::Finish,
        },
    }
}

/// The exit code that a verdict ends the invocation with, if it ends it.
pub open spec fn exit_code_of(verdict: VerdictView) -> Option<i32> {
    match verdict {
        VerdictView::Run(_) => None,
        VerdictView::Finish => Some(0i32),
        VerdictView::Fail(_) => Some(1i32),
    }
}

/// Decides what follows the look for the session.
pub fn begin(answer: Result<bool, TmuxError>) -> (verdict: Verdict)
    ensures
        verdict@ == after_check(plain_view(answer)),
{
    match answer {
        Ok(true) => Verdict::Run(Step::Attach),
        Ok(false) => Verdict::Run(Step::Create),
        Err(error) => {
            if error.is_absence() {
                Verdict::Run(Step::Create)
            } else {
                Verdict::Fail(error.message())
            }
        },
    }
}

/// Decides what follows the command `step`, which came to `result`.
pub fn proceed(step: Step, result: Result<(), TmuxError>) -> (verdict: Verdict)
    ensures
        verdict@ == after_step(step, plain_view(result)),
{
    match result {
        Err(error) => Verdict::Fail(error.message()),
        Ok(_) => match step {
            Step::Create => Verdict::Run(Step::Split),
            Step::Split => Verdict::Run(Step::Attach),
            Step::Attach => Verdict::Finish,
        },
    }
}

impl Verdict {
    /// The exit code that this verdict ends the invocation with: zero after
    /// the attach, one after a failure, none while a command is still to run.
    pub fn exit_code(&self) -> (code: Option<i32>)
        ensures
            code == exit_code_of(self@),
    {
        match self {
            Verdict::Run(_) => None,
            Verdict::Finish => Some(0),
            Verdict::Fail(_) => Some(1),
        }
    }
}

/// A session that is there is attached to directly: nothing is created and
/// nothing is split, and a successful attach ends the invocation with exit
/// code zero.
pub proof fn lemma_present_session_only_attached()
    ensures
        after_check(Ok(true)) == VerdictView::Run(Step::Attach),
        after_step(Step::Attach, Ok(())) == VerdictView::Finish,
        exit_code_of(VerdictView::Finish) == Some(0i32),
{
}

/// A session that is missing, be it by the listing or because no server or no
/// socket is there, is created, then split, then attached to.
pub proof fn lemma_missing_session_created(answer: Result<bool, ErrorKind>)
    requires
        answer == Ok::<bool, ErrorKind>(false) || (answer is Err && is_absence(answer->Err_0)),
    ensures
        after_check(answer) == VerdictView::Run(Step::Create),
        after_step(Step::Create, Ok(())) == VerdictView::Run(Step::Split),
        after_step(Step::Split, Ok(())) == VerdictView::Run(Step::Attach),
        after_step(Step::Attach, Ok(())) == VerdictView::Finish,
{
}

/// Every failure after the look, the two kinds of absence included, ends the
/// invocation with exit code one and the failure's own message.
pub proof fn lemma_failure_ends_invocation(step: Step, kind: ErrorKind)
    ensures
        after_step(step, Err(kind)) == VerdictView::Fail(describe(kind)),
        exit_code_of(after_step(step, Err(kind))) == Some(1i32),
{
}

} // verus!
