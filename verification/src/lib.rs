//! Session control for the tmux terminal multiplexer: the argument vectors of
//! the subcommands it is driven with, the reading of what a finished command
//! left behind, and the order in which a front end issues the commands.
//!
//! Nothing here starts a process. A front end runs the command lines that
//! [`Tmux`] hands out and gives back what happened as an [`Execution`] or an
//! [`Attachment`].

pub mod error;
pub mod outcome;
pub mod plan;
pub mod text;
pub mod tmux;

pub use error::{ErrorKind, TmuxError};
pub use outcome::{Attachment, CommandOutcome, Execution};
pub use plan::{begin, proceed, Step, Verdict};
pub use tmux::Tmux;
