//! Settings that a workload is started with.

use vstd::prelude::*;

verus! {

/// The descriptor of standard input.
pub const STDIN_FD: i32 = 0;

/// The descriptor of standard output.
pub const STDOUT_FD: i32 = 1;

/// The descriptor of standard error.
pub const STDERR_FD: i32 = 2;

/// Options for setting up TLS connections
#[derive(Debug, PartialEq, Eq)]
pub struct TLSOptions {
    /// PEM-encoded certificate chain
    pub cert: Option<String>,
    /// PEM-encoded private key
    pub key: Option<String>,
    /// File containing trusted CA certificates
    pub cacert: Option<String>,
    /// Directory containing trusted CA certificates
    pub capath: Option<String>,
}

/// Where a workload reads from.
#[derive(Debug, PartialEq, Eq)]
pub enum ReadHandle {
    /// Nowhere: every read finds the end.
    Null,
    /// A descriptor of the process that starts the workload.
    Inherit(i32),
    /// A socket without encryption, by host and port.
    PlaintextSocket(String, u16),
}

/// Where a workload writes to.
#[derive(Debug, PartialEq, Eq)]
pub enum WriteHandle {
    /// Nowhere: what is written is dropped.
    Null,
    /// A descriptor of the process that starts the workload.
    Inherit(i32),
    /// A socket without encryption, by host and port.
    PlaintextSocket(String, u16),
}

/// Settings for the workload's runtime environment
#[derive(Debug, PartialEq, Eq)]
pub struct EnvConfig {
    pub envs: Vec<(String, String)>,
    pub args: Vec<String>,
    pub stdin: Option<ReadHandle>,
    pub stdout: Option<WriteHandle>,
    pub stderr: Option<WriteHandle>,
}

impl Default for EnvConfig {
    fn default() -> (r: Self)
        ensures
            r.envs@.len() == 0,
            r.args@.len() == 0,
            r.stdin is None,
            r.stdout is None,
            r.stderr is None,
    {
        Self { envs: Vec::new(), args: Vec::new(), stdin: None, stdout: None, stderr: None }
    }
}

impl EnvConfig {
    /// Lets the workload read what this process reads.
    pub fn inherit_stdin(self) -> (r: Self)
        ensures
            r.stdin == Some(ReadHandle::Inherit(STDIN_FD)),
            r.envs == self.envs,
            r.args == self.args,
            r.stdout == self.stdout,
            r.stderr == self.stderr,
    {
        let mut next = self;
        next.stdin = Some(ReadHandle::Inherit(STDIN_FD));
        next
    }

    /// Lets the workload write where this process writes.
    pub fn inherit_stdout(self) -> (r: Self)
        ensures
            r.stdout == Some(WriteHandle::Inherit(STDOUT_FD)),
            r.envs == self.envs,
            r.args == self.args,
            r.stdin == self.stdin,
            r.stderr == self.stderr,
    {
        let mut next = self;
        next.stdout = Some(WriteHandle::Inherit(STDOUT_FD));
        next
    }

    /// Lets the workload complain where this process complains.
    pub fn inherit_stderr(self) -> (r: Self)
        ensures
            r.stderr == Some(WriteHandle::Inherit(STDERR_FD)),
            r.envs == self.envs,
            r.args == self.args,
            r.stdin == self.stdin,
            r.stdout == self.stdout,
    {
        let mut next = self;
        next.stderr = Some(WriteHandle::Inherit(STDERR_FD));
        next
    }

    /// Hands all three standard streams of this process to the workload.
    pub fn inherit_stdio(self) -> (r: Self)
        ensures
            r.stdin == Some(ReadHandle::Inherit(STDIN_FD)),
            r.stdout == Some(WriteHandle::Inherit(STDOUT_FD)),
            r.stderr == Some(WriteHandle::Inherit(STDERR_FD)),
            r.envs == self.envs,
            r.args == self.args,
    {
        self.inherit_stdin().inherit_stdout().inherit_stderr()
    }
}

} // verus!
