//! Socket activation: the descriptors that a supervisor hands to the service.
//!
//! A supervisor that starts the service with sockets already open says so in
//! three environment variables: `LISTEN_PID` names the process they are meant
//! for, `LISTEN_FDS` says how many there are, and `LISTEN_FDNAMES` may give
//! each a name. The descriptors are numbered from [`LISTEN_FDS_START`] on. The
//! environment is read once, into a [`ListenEnv`], and everything here works
//! on that value.

use crate::text::{parse_i32, parse_usize, same_text, split, split_on, text_as_i32, text_as_usize};
use vstd::prelude::*;

verus! {

/// The number of the first descriptor that a supervisor hands over: the one
/// after standard input, output and error.
pub const LISTEN_FDS_START: i32 = 3;

/// The largest count of descriptors that can be numbered.
pub const LISTEN_FDS_MAX: usize = 2147483644;

/// Why the environment gives no text for a variable.
#[derive(Debug, Clone, Copy, PartialEq, Eq, Structural)]
pub enum VarFault {
    /// The variable is not set.
    NotPresent,
    /// The variable is set to something that is no text.
    NotUnicode,
}

/// The error enum for [`ListenFds`].
#[derive(Debug, Clone, Copy, PartialEq, Eq, Structural)]
pub enum ListenFdError {
    /// No descriptors were handed to this process.
    NotPresent,
    /// A variable does not hold what it must hold.
    ParseError,
    /// The count of descriptors is out of range, or differs from the count of
    /// their names.
    CountError,
}

impl ListenFdError {
    /// The error that a missing or unreadable variable stands for.
    pub fn from(fault: VarFault) -> (r: ListenFdError)
        ensures
            r == error_of_fault(fault),
    {
        match fault {
            VarFault::NotPresent => ListenFdError::NotPresent,
            VarFault::NotUnicode => ListenFdError::ParseError,
        }
    }

    /// The error in words.
    pub fn to_string(&self) -> (r: String)
        ensures
            r@ == error_text(*self),
    {
        match self {
            ListenFdError::NotPresent => String::from_str("not present"),
            ListenFdError::ParseError => String::from_str("parse error"),
            ListenFdError::CountError => String::from_str("fd overflow/mismatch"),
        }
    }
}

/// The error that a missing or unreadable variable stands for.
pub open spec fn error_of_fault(fault: VarFault) -> ListenFdError {
    match fault {
        VarFault::NotPresent => ListenFdError::NotPresent,
        VarFault::NotUnicode => ListenFdError::ParseError,
    }
}

/// The words for each error.
pub open spec fn error_text(e: ListenFdError) -> Seq<char> {
    match e {
        ListenFdError::NotPresent => "not present"@,
        ListenFdError::ParseError => "parse error"@,
        ListenFdError::CountError => "fd overflow/mismatch"@,
    }
}

/// The model of one variable: its text, or why there is none.
pub open spec fn var_view(v: Result<String, VarFault>) -> Result<Seq<char>, VarFault> {
    match v {
        Ok(s) => Ok(s@),
        Err(f) => Err(f),
    }
}

/// Reads a variable that may be left unset: then there is no value, and no
/// error.
pub fn optvar(value: &Result<String, VarFault>) -> (r: Result<Option<&str>, VarFault>)
    ensures
        match *value {
            Ok(s) => r matches Ok(Some(t)) && t@ == s@,
            Err(VarFault::NotPresent) => r matches Ok(None),
            Err(VarFault::NotUnicode) => r == Err::<Option<&str>, VarFault>(VarFault::NotUnicode),
        },
{
    match value {
        Err(VarFault::NotPresent) => Ok(None),
        Ok(val) => Ok(Some(val.as_str())),
        Err(e) => Err(*e),
    }
}

/// What the process knows of its activation: its own id and the three
/// variables, as they were when the environment was read.
#[derive(Debug, PartialEq, Eq)]
pub struct ListenEnv {
    /// The id of this process.
    pub pid: u32,
    /// `LISTEN_PID`
    pub listen_pid: Result<String, VarFault>,
    /// `LISTEN_FDS`
    pub listen_fds: Result<String, VarFault>,
    /// `LISTEN_FDNAMES`
    pub listen_fdnames: Result<String, VarFault>,
}

/// The model of [`ListenEnv`].
pub struct ListenEnvView {
    pub pid: u32,
    pub listen_pid: Result<Seq<char>, VarFault>,
    pub listen_fds: Result<Seq<char>, VarFault>,
    pub listen_fdnames: Result<Seq<char>, VarFault>,
}

impl View for ListenEnv {
    type V = ListenEnvView;

    open spec fn view(&self) -> ListenEnvView {
        ListenEnvView {
            pid: self.pid,
            listen_pid: var_view(self.listen_pid),
            listen_fds: var_view(self.listen_fds),
            listen_fdnames: var_view(self.listen_fdnames),
        }
    }
}

/// The descriptors handed to this process, and their names where the
/// supervisor gave any.
#[derive(Debug)]
pub struct ListenFds {
    pub fds: usize,
    pub fdnames: Option<Vec<String>>,
}

/// The model of [`ListenFds`].
pub struct ListenFdsView {
    pub fds: nat,
    pub fdnames: Option<Seq<Seq<char>>>,
}

impl View for ListenFds {
    type V = ListenFdsView;

    open spec fn view(&self) -> ListenFdsView {
        ListenFdsView {
            fds: self.fds as nat,
            fdnames: match self.fdnames {
                Some(v) => Some(v.deep_view()),
                None => None,
            },
        }
    }
}

impl ListenFdsView {
    /// Each descriptor has a number, and where there are names there is one
    /// for each descriptor.
    pub open spec fn wf(self) -> bool {
        &&& self.fds <= LISTEN_FDS_MAX
        &&& self.fdnames matches Some(names) ==> names.len() == self.fds
    }

    /// The numbers of the descriptors, in ascending order.
    pub open spec fn numbers(self) -> Seq<i32> {
        Seq::new(self.fds, |i: int| (LISTEN_FDS_START + i) as i32)
    }

    /// The name of the descriptor at position `i`.
    pub open spec fn name_at(self, i: int) -> Seq<char> {
        match self.fdnames {
            Some(names) => names[i],
            None => "unknown"@,
        }
    }

    /// The names of the descriptors, in the order of their numbers.
    pub open spec fn names(self) -> Seq<Seq<char>> {
        Seq::new(self.fds, |i: int| self.name_at(i))
    }

    /// Whether `i` is the first position whose descriptor was named
    /// `connection` by the supervisor.
    pub open spec fn is_connection(self, i: int) -> bool {
        &&& self.fdnames is Some
        &&& 0 <= i < self.fds
        &&& self.name_at(i) == "connection"@
        &&& forall|j: int| 0 <= j < i ==> self.name_at(j) != "connection"@
    }
}

/// The process id that `LISTEN_PID` must hold for the process `pid`.
pub open spec fn expected_pid(pid: u32) -> int {
    if pid <= i32::MAX {
        pid as int
    } else {
        pid - 0x1_0000_0000
    }
}

/// The names that `LISTEN_FDNAMES` gives, where it is set.
pub open spec fn activation_names(names: Result<Seq<char>, VarFault>) -> Result<
    Option<Seq<Seq<char>>>,
    ListenFdError,
> {
    match names {
        Ok(t) => Ok(Some(split_on(t, ':'))),
        Err(VarFault::NotPresent) => Ok(None),
        Err(VarFault::NotUnicode) => Err(ListenFdError::ParseError),
    }
}

/// The table that the environment `env` describes, or why there is none.
pub open spec fn activation(env: ListenEnvView) -> Result<ListenFdsView, ListenFdError> {
    match env.listen_pid {
        Err(f) => Err(error_of_fault(f)),
        Ok(pid_text) => match text_as_i32(pid_text) {
            None => Err(ListenFdError::ParseError),
            Some(pid) => if pid != expected_pid(env.pid) {
                Err(ListenFdError::NotPresent)
            } else {
                match env.listen_fds {
                    Err(_) => Err(ListenFdError::ParseError),
                    Ok(fds_text) => match text_as_usize(fds_text) {
                        None => Err(ListenFdError::ParseError),
                        Some(fds) => if fds <= 0 || fds > LISTEN_FDS_MAX {
                            Err(ListenFdError::CountError)
                        } else {
                            match activation_names(env.listen_fdnames) {
                                Err(e) => Err(e),
                                Ok(Some(names)) => if names.len() != fds {
                                    Err(ListenFdError::CountError)
                                } else {
                                    Ok(ListenFdsView { fds: fds as nat, fdnames: Some(names) })
                                },
                                Ok(None) => Ok(ListenFdsView { fds: fds as nat, fdnames: None }),
                            }
                        },
                    },
                }
            },
        },
    }
}

/// The environment `env` after the activation was taken out of it.
pub open spec fn cleared(env: ListenEnvView) -> ListenEnvView {
    ListenEnvView {
        pid: env.pid,
        listen_pid: Err(VarFault::NotPresent),
        listen_fds: Err(VarFault::NotPresent),
        listen_fdnames: Err(VarFault::NotPresent),
    }
}

/// The model of what reading the table yields.
pub open spec fn table_view(r: Result<ListenFds, ListenFdError>) -> Result<
    ListenFdsView,
    ListenFdError,
> {
    match r {
        Ok(t) => Ok(t@),
        Err(e) => Err(e),
    }
}

impl ListenEnv {
    /// The environment of a process to which nothing was handed.
    pub fn empty(pid: u32) -> (r: ListenEnv)
        ensures
            r@.pid == pid,
            r@ == cleared(r@),
    {
        ListenEnv {
            pid,
            listen_pid: Err(VarFault::NotPresent),
            listen_fds: Err(VarFault::NotPresent),
            listen_fdnames: Err(VarFault::NotPresent),
        }
    }
}

impl ListenFds {
    fn get_listen_pid(env: &ListenEnv) -> (r: Result<i32, ListenFdError>)
        ensures
            match r {
                Ok(pid) => env@.listen_pid matches Ok(t) && text_as_i32(t) == Some(pid as int),
                Err(e) => match env@.listen_pid {
                    Ok(t) => text_as_i32(t) is None && e == ListenFdError::ParseError,
                    Err(f) => e == error_of_fault(f),
                },
            },
    {
        match &env.listen_pid {
            Err(f) => Err(ListenFdError::from(*f)),
            Ok(text) => match parse_i32(text.as_str()) {
                Some(pid) => Ok(pid),
                None => Err(ListenFdError::ParseError),
            },
        }
    }

    fn get_listen_fds(env: &ListenEnv) -> (r: Result<usize, ListenFdError>)
        ensures
            match r {
                Ok(fds) => env@.listen_fds matches Ok(t) && text_as_usize(t) == Some(fds as int),
                Err(e) => e == ListenFdError::ParseError && (env@.listen_fds matches Ok(t)
                    ==> text_as_usize(t) is None),
            },
    {
        match &env.listen_fds {
            Err(_) => Err(ListenFdError::ParseError),
            Ok(text) => match parse_usize(text.as_str()) {
                Some(fds) => Ok(fds),
                None => Err(ListenFdError::ParseError),
            },
        }
    }

    /// The names that `LISTEN_FDNAMES` gives: the pieces between its colons.
    pub fn get_listen_fdnames(env: &ListenEnv) -> (r: Result<Option<Vec<String>>, ListenFdError>)
        ensures
            match r {
                Ok(Some(v)) => activation_names(env@.listen_fdnames) == Ok::<
                    Option<Seq<Seq<char>>>,
                    ListenFdError,
                >(Some(v.deep_view())),
                Ok(None) => activation_names(env@.listen_fdnames) == Ok::<
                    Option<Seq<Seq<char>>>,
                    ListenFdError,
                >(None),
                Err(e) => activation_names(env@.listen_fdnames) == Err::<
                    Option<Seq<Seq<char>>>,
                    ListenFdError,
                >(e),
            },
    {
        match optvar(&env.listen_fdnames) {
            Ok(Some(text)) => Ok(Some(split(text, ':'))),
            Ok(None) => Ok(None),
            Err(f) => Err(ListenFdError::from(f)),
        }
    }

    /// Reads the table of descriptors from what the environment held at
    /// startup. [`ListenFdError::NotPresent`] says that nothing was handed to
    /// this process; the other errors say that what was handed over is
    /// corrupt.
    pub fn from_env(env: &ListenEnv) -> (r: Result<ListenFds, ListenFdError>)
        ensures
            table_view(r) == activation(env@),
            r matches Ok(t) ==> t@.wf() && t@.fds > 0,
    {
        let pid: i32 = match Self::get_listen_pid(env) {
            Ok(pid) => pid,
            Err(e) => {
                return Err(e);
            },
        };
        let own: i64 = if env.pid > 2147483647 {
            env.pid as i64 - 4294967296
        } else {
            env.pid as i64
        };
        if pid as i64 != own {
            return Err(ListenFdError::NotPresent);
        }
        let fds: usize = match Self::get_listen_fds(env) {
            Ok(fds) => fds,
            Err(e) => {
                return Err(e);
            },
        };
        if fds == 0 || fds > LISTEN_FDS_MAX {
            return Err(ListenFdError::CountError);
        }
        let fdnames = match Self::get_listen_fdnames(env) {
            Ok(names) => names,
            Err(e) => {
                return Err(e);
            },
        };
        match &fdnames {
            Some(names) => {
                if names.len() != fds {
                    return Err(ListenFdError::CountError);
                }
            },
            None => {},
        }
        Ok(ListenFds { fds, fdnames })
    }

    /// Reads the table as [`ListenFds::from_env`] does, and forgets the
    /// activation whatever was read: the table is taken once.
    pub fn take_from_env(env: &mut ListenEnv) -> (r: Result<ListenFds, ListenFdError>)
        ensures
            table_view(r) == activation(old(env)@),
            r matches Ok(t) ==> t@.wf() && t@.fds > 0,
            final(env)@ == cleared(old(env)@),
    {
        let taken = Self::from_env(env);
        Self::unset_env(env);
        taken
    }

    /// Forgets the activation: afterwards the environment hands nothing to
    /// this process or to one that it starts.
    pub fn unset_env(env: &mut ListenEnv)
        ensures
            final(env)@ == cleared(old(env)@),
            activation(final(env)@) == Err::<ListenFdsView, ListenFdError>(
                ListenFdError::NotPresent,
            ),
    {
        env.listen_pid = Err(VarFault::NotPresent);
        env.listen_fds = Err(VarFault::NotPresent);
        env.listen_fdnames = Err(VarFault::NotPresent);
    }

    /// The count of descriptors.
    pub fn count(&self) -> (r: usize)
        ensures
            r == self@.fds,
    {
        self.fds
    }

    /// The numbers of the descriptors, in ascending order.
    pub fn iter(&self) -> (r: Vec<i32>)
        requires
            self@.wf(),
        ensures
            r@ == self@.numbers(),
    {
        let mut out: Vec<i32> = Vec::new();
        let mut i: usize = 0;
        while i < self.fds
            invariant
                self@.wf(),
                i <= self.fds,
                out@.len() == i,
                forall|j: int| 0 <= j < i ==> out@[j] == LISTEN_FDS_START + j,
            decreases self.fds - i,
        {
            out.push(LISTEN_FDS_START + i as i32);
            i += 1;
        }
        assert(out@ =~= self@.numbers());
        out
    }

    /// The names of the descriptors, one after the other. Where the
    /// supervisor gave no names, each is `unknown`.
    pub fn iter_names(&self) -> (r: ListenFdNamesIter<'_>)
        requires
            self@.wf(),
        ensures
            r.wf(),
            r.remaining() == self@.names(),
    {
        let r = ListenFdNamesIter { cur: 0, lfd: self };
        assert(r.remaining() =~= self@.names());
        r
    }

    /// Each descriptor's number with its name, in ascending order.
    pub fn iter_with_names(&self) -> (r: Vec<(i32, &str)>)
        requires
            self@.wf(),
        ensures
            r@.len() == self@.fds,
            forall|i: int|
                0 <= i < r@.len() ==> (#[trigger] r@[i]).0 == self@.numbers()[i] && r@[i].1@
                    == self@.names()[i],
    {
        let numbers = self.iter();
        let mut names = self.iter_names();
        let mut out: Vec<(i32, &str)> = Vec::new();
        let mut i: usize = 0;
        while i < numbers.len()
            invariant
                self@.wf(),
                numbers@ == self@.numbers(),
                names.wf(),
                i <= numbers@.len(),
                names.remaining() == self@.names().skip(i as int),
                out@.len() == i,
                forall|j: int|
                    0 <= j < i ==> (#[trigger] out@[j]).0 == self@.numbers()[j] && out@[j].1@
                        == self@.names()[j],
            decreases numbers@.len() - i,
        {
            match names.next() {
                Some(name) => {
                    out.push((numbers[i], name));
                },
                None => {
                    assert(false);
                },
            }
            assert(self@.names().skip(i as int).drop_first() =~= self@.names().skip(i + 1));
            i += 1;
        }
        out
    }

    /// Get the first descriptor labeled `connection`, which is how the
    /// supervisor marks the accepted connection when it starts one service for
    /// each. Without any names nothing is found.
    pub fn get_connection_fd(&self) -> (r: Option<i32>)
        requires
            self@.wf(),
        ensures
            match r {
                Some(fd) => self@.is_connection(fd - LISTEN_FDS_START),
                None => forall|i: int| !self@.is_connection(i),
            },
    {
        if self.fdnames.is_some() {
            let pairs = self.iter_with_names();
            let mut i: usize = 0;
            while i < pairs.len()
                invariant
                    self@.wf(),
                    self.fdnames is Some,
                    i <= pairs@.len(),
                    pairs@.len() == self@.fds,
                    forall|k: int|
                        0 <= k < pairs@.len() ==> (#[trigger] pairs@[k]).0 == self@.numbers()[k]
                            && pairs@[k].1@ == self@.names()[k],
                    forall|j: int| 0 <= j < i ==> self@.name_at(j) != "connection"@,
                decreases pairs@.len() - i,
            {
                let (fd, name) = pairs[i];
                assert(name@ == self@.names()[i as int]);
                if same_text(name, "connection") {
                    return Some(fd);
                }
                i += 1;
            }
        }
        None
    }
}

/// Clearing an environment twice is clearing it once, and a cleared
/// environment hands nothing over, whatever it held before.
pub proof fn lemma_cleared_is_final(env: ListenEnvView)
    ensures
        cleared(cleared(env)) == cleared(env),
        activation(cleared(env)) == Err::<ListenFdsView, ListenFdError>(ListenFdError::NotPresent),
{
}

/// A table that was read from an environment is well formed and holds at
/// least one descriptor.
pub proof fn lemma_activation_is_well_formed(env: ListenEnvView)
    requires
        activation(env) is Ok,
    ensures
        activation(env)->Ok_0.wf(),
        activation(env)->Ok_0.fds > 0,
{
}

/// The descriptors of a well-formed table are numbered one after the other
/// from [`LISTEN_FDS_START`] on: none of them is standard input, output or
/// error, and the last has the number `LISTEN_FDS_START + fds - 1`.
pub proof fn lemma_numbers_are_consecutive(table: ListenFdsView)
    requires
        table.wf(),
    ensures
        table.numbers().len() == table.fds,
        table.names().len() == table.fds,
        table.fds > 0 ==> table.numbers().first() == LISTEN_FDS_START,
        table.fds > 0 ==> table.numbers().last() == LISTEN_FDS_START + table.fds - 1,
        forall|i: int|
            0 <= i < table.fds ==> #[trigger] table.numbers()[i] == LISTEN_FDS_START + i
                && table.numbers()[i] > 2,
{
}

/// Without names every descriptor is called `unknown`, and none is the
/// connection.
pub proof fn lemma_unnamed_table(table: ListenFdsView)
    requires
        table.fdnames is None,
    ensures
        forall|i: int| 0 <= i < table.fds ==> #[trigger] table.names()[i] == "unknown"@,
        forall|i: int| !table.is_connection(i),
{
}

/// At most one position is the connection.
pub proof fn lemma_connection_is_unique(table: ListenFdsView, i: int, j: int)
    requires
        table.is_connection(i),
        table.is_connection(j),
    ensures
        i == j,
{
}

/// The names of the descriptors of a table that are still to come.
pub struct ListenFdNamesIter<'a> {
    cur: usize,
    lfd: &'a ListenFds,
}

impl<'a> ListenFdNamesIter<'a> {
    /// The position is within the table, and the table is well formed.
    pub closed spec fn wf(&self) -> bool {
        self.cur <= self.lfd.fds && self.lfd@.wf()
    }

    /// The names that are still to come, in order.
    pub closed spec fn remaining(&self) -> Seq<Seq<char>> {
        self.lfd@.names().skip(self.cur as int)
    }

    /// Hands out the next name, if one is left.
    pub fn next(&mut self) -> (r: Option<&'a str>)
        requires
            old(self).wf(),
        ensures
            final(self).wf(),
            match r {
                Some(name) => old(self).remaining().len() > 0 && name@ == old(
                    self,
                ).remaining().first() && final(self).remaining() == old(
                    self,
                ).remaining().drop_first(),
                None => old(self).remaining().len() == 0 && final(self).remaining() == old(
                    self,
                ).remaining(),
            },
    {
        if self.cur >= self.lfd.fds {
            return None;
        }
        let name: &'a str = match &self.lfd.fdnames {
            Some(v) => v[self.cur].as_str(),
            None => "unknown",
        };
        assert(self.lfd@.names().skip(self.cur as int).drop_first() =~= self.lfd@.names().skip(
            self.cur + 1,
        ));
        self.cur += 1;
        Some(name)
    }

    /// How many names are still to come: at least and at most.
    pub fn size_hint(&self) -> (r: (usize, Option<usize>))
        requires
            self.wf(),
        ensures
            r.0 == self.remaining().len(),
            r.1 == Some(r.0),
    {
        let remaining: usize = self.lfd.fds - self.cur;
        (remaining, Some(remaining))
    }
}

} // verus!
