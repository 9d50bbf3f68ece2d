//! Serving a Keep loader: where the connection comes from, and how long it
//! may stay idle.

use crate::listenfds::{activation, cleared, ListenEnv, ListenFdError, ListenFds, LISTEN_FDS_START};
use crate::text::same_text;
use vstd::prelude::*;

verus! {

/// How long a connection may stay idle where nothing else is asked for, in
/// milliseconds.
pub const DEFAULT_IDLE_TIMEOUT: u64 = 5000;

/// Handle an incoming request as a socket-activated service
#[derive(Debug, PartialEq, Eq)]
pub struct ServeOptions {
    /// Handle a connection from a socket unit that accepts for the service
    pub systemd_socket_accept: bool,
    /// Idle connection timeout time, in milliseconds (0=forever)
    pub idle_timeout: u64,
    /// Socket path to listen on
    pub socket_path: Option<String>,
}

/// Where the service gets its connections from.
#[derive(Debug, PartialEq, Eq)]
pub enum ServePlan {
    /// One connection, accepted by the supervisor and handed over.
    AcceptFromSystemd,
    /// Every connection that comes in on the socket at this path.
    Listen(String),
}

/// Why the service cannot serve.
#[derive(Debug, PartialEq, Eq)]
pub enum ServeError {
    /// Neither a handed-over connection nor a path to listen on was asked
    /// for.
    MissingSocketPath,
    /// The supervisor handed over nothing that can be read.
    Activation(ListenFdError),
    /// None of the descriptors handed over is the connection.
    NoConnection,
    /// The socket handed over is not the one that was asked for.
    PathMismatch { actual: Option<String>, expected: String },
}

impl ServeOptions {
    /// Takes the activation out of the environment and finds the descriptor
    /// of the connection that the supervisor accepted. Whatever is found, the
    /// environment hands on nothing afterwards.
    pub fn accept_from_systemd(&self, env: &mut ListenEnv) -> (r: Result<i32, ServeError>)
        ensures
            final(env)@ == cleared(old(env)@),
            match activation(old(env)@) {
                Err(e) => r matches Err(ServeError::Activation(f)) && f == e,
                Ok(table) => match r {
                    Ok(fd) => table.is_connection(fd - LISTEN_FDS_START),
                    Err(e) => e matches ServeError::NoConnection && forall|i: int|
                        !table.is_connection(i),
                },
            },
    {
        match ListenFds::take_from_env(env) {
            Err(e) => Err(ServeError::Activation(e)),
            Ok(listen_fds) => match listen_fds.get_connection_fd() {
                None => Err(ServeError::NoConnection),
                Some(fd) => Ok(fd),
            },
        }
    }

    /// Holds the path of the socket that was handed over against the path
    /// that was asked for, where one was.
    pub fn check_socket_path(&self, actual: Option<&str>) -> (r: Result<(), ServeError>)
        ensures
            match self.socket_path {
                None => r is Ok,
                Some(expected) => if actual matches Some(a) && a@ == expected@ {
                    r is Ok
                } else {
                    &&& r matches Err(ServeError::PathMismatch { actual: got, expected: want })
                    &&& want@ == expected@
                    &&& match actual {
                        Some(a) => got matches Some(g) && g@ == a@,
                        None => got is None,
                    }
                },
            },
    {
        match &self.socket_path {
            None => Ok(()),
            Some(expected) => match actual {
                Some(a) => {
                    if same_text(a, expected.as_str()) {
                        Ok(())
                    } else {
                        Err(
                            ServeError::PathMismatch {
                                actual: Some(a.to_owned()),
                                expected: expected.clone(),
                            },
                        )
                    }
                },
                None => Err(ServeError::PathMismatch { actual: None, expected: expected.clone() }),
            },
        }
    }

    /// The longest that a connection may stay idle, in milliseconds; `None`
    /// where it may stay idle for ever.
    pub fn timeout(&self) -> (r: Option<u64>)
        ensures
            r == if self.idle_timeout == 0 {
                None
            } else {
                Some(self.idle_timeout)
            },
    {
        if self.idle_timeout == 0 {
            None
        } else {
            Some(self.idle_timeout)
        }
    }

    /// Whether a connection that has been idle for `idle_millis` milliseconds
    /// is to be closed.
    pub fn idle_expired(&self, idle_millis: u64) -> (r: bool)
        ensures
            r == (self.idle_timeout != 0 && idle_millis > self.idle_timeout),
    {
        self.idle_timeout != 0 && idle_millis > self.idle_timeout
    }
}

} // verus!
