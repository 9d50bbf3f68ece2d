//! Running a WebAssembly module inside a Keep.

use crate::config::{EnvConfig, ReadHandle, WriteHandle, STDERR_FD, STDIN_FD, STDOUT_FD};
use crate::text::find_char;
use vstd::prelude::*;

verus! {

/// Run a WebAssembly module inside an Enarx Keep.
#[derive(Debug, PartialEq, Eq)]
pub struct RunOptions {
    /// Set an environment variable for the program
    pub envs: Vec<(String, String)>,
    /// Name of the function to invoke
    pub invoke: Option<String>,
    /// Path of the WebAssembly module to run
    pub module: String,
    /// Arguments to pass to the WebAssembly module
    pub args: Vec<String>,
}

/// Why a module was not run.
#[derive(Debug, Clone, Copy, PartialEq, Eq, Structural)]
pub enum RunError {
    /// A setting of the environment that is not of the form `NAME=VAL`.
    BadEnvVar,
}

impl RunError {
    /// The error in words.
    pub fn to_string(&self) -> (r: String)
        ensures
            r@ == "must be of the form `NAME=VAL`"@,
    {
        match self {
            RunError::BadEnvVar => String::from_str("must be of the form `NAME=VAL`"),
        }
    }
}

/// Cuts a setting `NAME=VAL` at its first `=` into the name and the value.
pub fn parse_env_var(s: &str) -> (r: Result<(String, String), RunError>)
    ensures
        match r {
            Ok((name, value)) => !name@.contains('=') && s@ == name@ + seq!['='] + value@,
            Err(e) => !s@.contains('=') && e == RunError::BadEnvVar,
        },
{
    match find_char(s, '=') {
        None => Err(RunError::BadEnvVar),
        Some(at) => {
            let n: usize = s.unicode_len();
            let name = s.substring_char(0, at).to_owned();
            let value = s.substring_char(at + 1, n).to_owned();
            assert(s@.subrange(0, at as int) =~= s@.take(at as int));
            assert(s@ =~= name@ + seq!['='] + value@);
            Ok((name, value))
        },
    }
}

/// Gathers what a Keep is to be built with.
#[derive(Debug)]
pub struct KeepBuilder {
    env_config: EnvConfig,
}

/// A Keep that was built and waits for its workload.
#[derive(Debug, Clone, Copy, PartialEq, Eq, Structural)]
pub struct KeepConn {}

/// What a Keep reports of a workload that it ran.
#[derive(Debug, Clone, Copy, PartialEq, Eq, Structural)]
pub struct Report {}

impl KeepBuilder {
    /// The settings gathered so far.
    pub closed spec fn config(&self) -> EnvConfig {
        self.env_config
    }

    /// Whether the workload is handed the standard streams of this process.
    pub open spec fn inherits_stdio(&self) -> bool {
        &&& self.config().stdin == Some(ReadHandle::Inherit(STDIN_FD))
        &&& self.config().stdout == Some(WriteHandle::Inherit(STDOUT_FD))
        &&& self.config().stderr == Some(WriteHandle::Inherit(STDERR_FD))
    }

    /// A builder with nothing set.
    pub fn new() -> (r: Self)
        ensures
            r.config().envs@.len() == 0,
            r.config().args@.len() == 0,
            r.config().stdin is None,
            r.config().stdout is None,
            r.config().stderr is None,
    {
        Self { env_config: EnvConfig::default() }
    }

    /// Hands the standard streams of this process to the workload, if
    /// `inherit` says so.
    pub fn inherit_stdio(self, inherit: bool) -> (r: Self)
        ensures
            inherit ==> r.inherits_stdio(),
            !inherit ==> r == self,
            r.config().envs == self.config().envs,
            r.config().args == self.config().args,
    {
        if inherit {
            Self { env_config: self.env_config.inherit_stdio() }
        } else {
            self
        }
    }

    /// Keeps the loader that a Keep comes with.
    pub fn default_loader(self) -> (r: Self)
        ensures
            r == self,
    {
        self
    }

    /// Builds the Keep.
    pub fn build(self) -> (r: Result<KeepConn, RunError>)
        ensures
            r == Ok::<KeepConn, RunError>(KeepConn {  }),
    {
        Ok(KeepConn {  })
    }
}

impl KeepConn {
    /// Configures the loader.
    pub fn config(self) -> (r: Result<Self, RunError>)
        ensures
            r == Ok::<KeepConn, RunError>(self),
    {
        Ok(self)
    }

    /// Sets the environment of the workload.
    pub fn envs(self, envs: &Vec<(String, String)>) -> (r: Result<Self, RunError>)
        ensures
            r == Ok::<KeepConn, RunError>(self),
    {
        Ok(self)
    }

    /// Sets the arguments of the workload.
    pub fn args(self, args: &Vec<String>) -> (r: Result<Self, RunError>)
        ensures
            r == Ok::<KeepConn, RunError>(self),
    {
        Ok(self)
    }

    /// Loads the module into the Keep.
    pub fn module(self, module: &[u8]) -> (r: Result<Self, RunError>)
        ensures
            r == Ok::<KeepConn, RunError>(self),
    {
        Ok(self)
    }

    /// Picks the function to invoke: the named one, or the module's default.
    pub fn function(self, func: Option<String>) -> (r: Result<Self, RunError>)
        ensures
            r == Ok::<KeepConn, RunError>(self),
    {
        match func {
            Some(_name) => {},
            None => {},
        }
        Ok(self)
    }

    /// Runs the workload.
    pub fn run(self) -> (r: Result<Report, RunError>)
        ensures
            r == Ok::<Report, RunError>(Report {  }),
    {
        Ok(Report {  })
    }
}

impl RunOptions {
    /// Run a WebAssembly workload: build a new, empty Keep, configure it,
    /// load the module, whose bytes are `module`, and run it.
    pub fn launch(self, module: &[u8]) -> (r: Result<Report, RunError>)
        ensures
            r == Ok::<Report, RunError>(Report {  }),
    {
        let keep = match KeepBuilder::new().default_loader().inherit_stdio(true).build() {
            Ok(keep) => keep,
            Err(e) => {
                return Err(e);
            },
        };
        let keep = match keep.config() {
            Ok(keep) => keep,
            Err(e) => {
                return Err(e);
            },
        };
        let keep = match keep.envs(&self.envs) {
            Ok(keep) => keep,
            Err(e) => {
                return Err(e);
            },
        };
        let keep = match keep.args(&self.args) {
            Ok(keep) => keep,
            Err(e) => {
                return Err(e);
            },
        };
        let keep = match keep.module(module) {
            Ok(keep) => keep,
            Err(e) => {
                return Err(e);
            },
        };
        let keep = match keep.function(self.invoke) {
            Ok(keep) => keep,
            Err(e) => {
                return Err(e);
            },
        };
        keep.run()
    }
}

} // verus!
