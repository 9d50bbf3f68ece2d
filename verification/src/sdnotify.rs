//! Where the supervisor wants to hear of the service's state.

use crate::listenfds::VarFault;
use vstd::prelude::*;

verus! {

/// The socket on which the supervisor listens for the state of the service.
#[derive(Debug, PartialEq, Eq)]
pub struct SdNotify {
    path: String,
}

impl SdNotify {
    /// The path that the service was built with.
    pub closed spec fn spec_path(&self) -> Seq<char> {
        self.path@
    }

    /// The path of the socket, as `NOTIFY_SOCKET` gives it.
    pub fn get_notify_socket(notify_socket: &Result<String, VarFault>) -> (r: Result<
        String,
        VarFault,
    >)
        ensures
            match *notify_socket {
                Ok(s) => r matches Ok(p) && p@ == s@,
                Err(f) => r == Err::<String, VarFault>(f),
            },
    {
        match notify_socket {
            Ok(s) => Ok(s.clone()),
            Err(f) => Err(*f),
        }
    }

    /// The supervisor's socket, where `NOTIFY_SOCKET` names one.
    pub fn from_env(notify_socket: &Result<String, VarFault>) -> (r: Result<SdNotify, VarFault>)
        ensures
            match *notify_socket {
                Ok(s) => r matches Ok(n) && n.spec_path() == s@,
                Err(f) => r == Err::<SdNotify, VarFault>(f),
            },
    {
        match Self::get_notify_socket(notify_socket) {
            Ok(path) => Ok(Self { path }),
            Err(f) => Err(f),
        }
    }

    /// The path of the socket to which the state goes.
    pub fn path(&self) -> (r: &str)
        ensures
            r@ == self.spec_path(),
    {
        self.path.as_str()
    }

    /// Forgets the socket, so that no process started from this one reports
    /// in its place.
    pub fn unset_env(notify_socket: &mut Result<String, VarFault>)
        ensures
            *final(notify_socket) == Err::<String, VarFault>(VarFault::NotPresent),
    {
        *notify_socket = Err(VarFault::NotPresent);
    }
}

} // verus!
