//! The commands of the `enarx` tool, and what each asks of the process.
//!
//! A command decides; the process acts. Running a command yields the
//! [`Action`] that the process is to take: the files it opens and the sockets
//! it serves are its own business.

use crate::run::RunOptions;
use crate::serve::{ServeError, ServeOptions, ServePlan};
use vstd::prelude::*;

verus! {

/// How much the tool says of what it does.
#[derive(Debug, Clone, Copy, PartialEq, Eq, Structural)]
pub enum LevelFilter {
    Error,
    Warn,
    Info,
    Debug,
    Trace,
}

/// Logging options
#[derive(Debug, PartialEq, Eq)]
pub struct LogOpts {
    /// Pass many times for more log output.
    ///
    /// By default we only show error messages. Passing `-v` will show warnings,
    /// `-vv` adds info, `-vvv` for debug, and `-vvvv` for trace.
    pub verbosity: u8,
    /// Set logging filters
    pub filter: Option<String>,
}

/// The level that `verbosity` repetitions of `-v` ask for.
pub open spec fn level_of(verbosity: u8) -> LevelFilter {
    if verbosity == 0 {
        LevelFilter::Error
    } else if verbosity == 1 {
        LevelFilter::Warn
    } else if verbosity == 2 {
        LevelFilter::Info
    } else if verbosity == 3 {
        LevelFilter::Debug
    } else {
        LevelFilter::Trace
    }
}

impl LogOpts {
    /// The level that was asked for.
    pub fn verbosity_level(&self) -> (r: LevelFilter)
        ensures
            r == level_of(self.verbosity),
    {
        match self.verbosity {
            0 => LevelFilter::Error,
            1 => LevelFilter::Warn,
            2 => LevelFilter::Info,
            3 => LevelFilter::Debug,
            _ => LevelFilter::Trace,
        }
    }
}

/// Noop command. Really just a template for adding new commands.
#[derive(Debug, PartialEq, Eq)]
pub struct NoopOptions {
    /// Arguments, which will all be ignored. What fun!
    pub args: Vec<String>,
}

/// Ask a Keep loader who it is.
#[derive(Debug, PartialEq, Eq)]
pub struct InfoOptions {
    /// The path of the loader's socket.
    pub socket_path: String,
}

/// What the process is to do for a command.
#[derive(Debug, PartialEq, Eq)]
pub enum Action {
    /// Nothing.
    Nothing,
    /// Open the module and run it in a Keep.
    Run(RunOptions),
    /// Serve the loader's calls on these connections.
    Serve(ServePlan),
    /// Call `Info` on the loader behind the socket at this path.
    Info(String),
}

/// Built-in subcommands need to implement this trait.
pub trait SubCommand: Sized {
    /// The action that the command asks for, or why it asks for none.
    spec fn outcome(self) -> Result<Action, ServeError>;

    /// Runs the command as far as it decides anything.
    fn execute(self) -> (r: Result<Action, ServeError>)
        ensures
            r == self.outcome(),
    ;
}

impl SubCommand for NoopOptions {
    open spec fn outcome(self) -> Result<Action, ServeError> {
        Ok(Action::Nothing)
    }

    fn execute(self) -> (r: Result<Action, ServeError>) {
        Ok(Action::Nothing)
    }
}

impl SubCommand for RunOptions {
    open spec fn outcome(self) -> Result<Action, ServeError> {
        Ok(Action::Run(self))
    }

    fn execute(self) -> (r: Result<Action, ServeError>) {
        Ok(Action::Run(self))
    }
}

impl SubCommand for InfoOptions {
    open spec fn outcome(self) -> Result<Action, ServeError> {
        Ok(Action::Info(self.socket_path))
    }

    fn execute(self) -> (r: Result<Action, ServeError>) {
        Ok(Action::Info(self.socket_path))
    }
}

impl SubCommand for ServeOptions {
    open spec fn outcome(self) -> Result<Action, ServeError> {
        if self.systemd_socket_accept {
            Ok(Action::Serve(ServePlan::AcceptFromSystemd))
        } else {
            match self.socket_path {
                None => Err(ServeError::MissingSocketPath),
                Some(path) => Ok(Action::Serve(ServePlan::Listen(path))),
            }
        }
    }

    fn execute(self) -> (r: Result<Action, ServeError>) {
        if self.systemd_socket_accept {
            Ok(Action::Serve(ServePlan::AcceptFromSystemd))
        } else {
            match self.socket_path {
                None => Err(ServeError::MissingSocketPath),
                Some(path) => Ok(Action::Serve(ServePlan::Listen(path))),
            }
        }
    }
}

/// `enarx` client subcommands and their options/arguments.
#[derive(Debug, PartialEq, Eq)]
pub enum Command {
    Run(RunOptions),
    Noop(NoopOptions),
}

/// Subcommands
#[derive(Debug, PartialEq, Eq)]
pub enum EnarxCommand {
    Run(RunOptions),
    Noop(NoopOptions),
    Serve(ServeOptions),
}

impl SubCommand for Command {
    open spec fn outcome(self) -> Result<Action, ServeError> {
        match self {
            Command::Run(c) => c.outcome(),
            Command::Noop(c) => c.outcome(),
        }
    }

    fn execute(self) -> (r: Result<Action, ServeError>) {
        match self {
            Command::Run(c) => c.execute(),
            Command::Noop(c) => c.execute(),
        }
    }
}

impl SubCommand for EnarxCommand {
    open spec fn outcome(self) -> Result<Action, ServeError> {
        match self {
            EnarxCommand::Run(c) => c.outcome(),
            EnarxCommand::Noop(c) => c.outcome(),
            EnarxCommand::Serve(c) => c.outcome(),
        }
    }

    fn execute(self) -> (r: Result<Action, ServeError>) {
        match self {
            EnarxCommand::Run(c) => c.execute(),
            EnarxCommand::Noop(c) => c.execute(),
            EnarxCommand::Serve(c) => c.execute(),
        }
    }
}

} // verus!
