//! The address of the host that runs a Keep.
//!
//! An address is written as a URI of one of three schemes:
//! `unix:/path/to/enarx.socket`, `tcp://enarx.host:port` and
//! `ssh://[user@]enarx.host[:port]/path/to/enarx.socket`. The text is cut into
//! its components by the `url` crate; which address the components name, and
//! how an address is written back, is decided here.

use crate::text::{decimal, decimal_text, same_text};
use vstd::prelude::*;

verus! {

/// The components of a URI that an address is read from.
#[derive(Debug, PartialEq, Eq)]
pub struct UrlParts {
    /// The scheme, without the `:` that ends it.
    pub scheme: String,
    /// The user name of the authority, empty where there is none.
    pub username: String,
    /// The host of the authority, as it is written.
    pub host: Option<String>,
    /// The authority's port.
    pub port: Option<u16>,
    /// The path.
    pub path: String,
}

/// The model of [`UrlParts`].
pub struct UrlPartsView {
    pub scheme: Seq<char>,
    pub username: Seq<char>,
    pub host: Option<Seq<char>>,
    pub port: Option<u16>,
    pub path: Seq<char>,
}

impl View for UrlParts {
    type V = UrlPartsView;

    open spec fn view(&self) -> UrlPartsView {
        UrlPartsView {
            scheme: self.scheme@,
            username: self.username@,
            host: match self.host {
                Some(h) => Some(h@),
                None => None,
            },
            port: self.port,
            path: self.path@,
        }
    }
}

/// Why a text is no URI at all.
#[derive(Debug, Clone, Copy, PartialEq, Eq)]
pub enum UrlFault {
    /// The URI names no host where it must name one.
    EmptyHost,
    /// What stands where the port belongs is no number of sixteen bits.
    InvalidPort,
    /// Any other fault.
    Other,
}

/// The Enarx host to connect to.
#[derive(Debug, PartialEq)]
#[non_exhaustive]
#[allow(inconsistent_fields)]
pub enum EnarxHost {
    /// Local host, via a unix socket.
    /// URI format: `unix:/path/to/enarx.socket`
    Local { path: String },
    /// Remote host, via TCP.
    /// URI format: `tcp://enarx.host:port`
    TCP { host: String, port: u16 },
    /// Remote host, via ssh.
    /// URI format: `ssh://[user@]enarx.host[:port]/path/to/enarx.socket`
    SSH { host: String, path: String, user: Option<String>, port: Option<u16> },
}

/// The model of [`EnarxHost`].
#[allow(inconsistent_fields)]
pub enum HostView {
    Local { path: Seq<char> },
    TCP { host: Seq<char>, port: u16 },
    SSH { host: Seq<char>, path: Seq<char>, user: Option<Seq<char>>, port: Option<u16> },
}

impl View for EnarxHost {
    type V = HostView;

    open spec fn view(&self) -> HostView {
        match self {
            EnarxHost::Local { path } => HostView::Local { path: path@ },
            EnarxHost::TCP { host, port } => HostView::TCP { host: host@, port: *port },
            EnarxHost::SSH { host, path, user, port } => HostView::SSH {
                host: host@,
                path: path@,
                user: match user {
                    Some(u) => Some(u@),
                    None => None,
                },
                port: *port,
            },
        }
    }
}

/// Why a text names no host.
#[derive(Debug, PartialEq)]
pub enum HostError {
    /// The text is no URI.
    InvalidUrl,
    /// The scheme is none of `unix`, `tcp` and `ssh`.
    UnknownScheme(String),
    /// A `tcp` or `ssh` address without a host.
    MissingHost,
    /// A `tcp` address without a port number.
    MissingPort,
    /// A `unix` address whose path starts neither with `/` nor with `@`.
    InvalidPath,
}

/// The model of [`HostError`].
pub enum HostErrorView {
    InvalidUrl,
    UnknownScheme(Seq<char>),
    MissingHost,
    MissingPort,
    InvalidPath,
}

impl View for HostError {
    type V = HostErrorView;

    open spec fn view(&self) -> HostErrorView {
        match self {
            HostError::InvalidUrl => HostErrorView::InvalidUrl,
            HostError::UnknownScheme(s) => HostErrorView::UnknownScheme(s@),
            HostError::MissingHost => HostErrorView::MissingHost,
            HostError::MissingPort => HostErrorView::MissingPort,
            HostError::InvalidPath => HostErrorView::InvalidPath,
        }
    }
}

/// The words for each error. An unknown scheme is named between double
/// quotes.
pub open spec fn error_text(e: HostErrorView) -> Seq<char> {
    match e {
        HostErrorView::InvalidUrl => "invalid URL"@,
        HostErrorView::UnknownScheme(scheme) => "unknown URL scheme \""@ + scheme + "\""@,
        HostErrorView::MissingHost => "missing host"@,
        HostErrorView::MissingPort => "missing port"@,
        HostErrorView::InvalidPath => "invalid unix socket path"@,
    }
}

impl HostError {
    /// The error in words.
    pub fn to_string(&self) -> (r: String)
        ensures
            r@ == error_text(self@),
    {
        match self {
            HostError::InvalidUrl => String::from_str("invalid URL"),
            HostError::UnknownScheme(scheme) => {
                let mut out = String::from_str("unknown URL scheme \"");
                out.append(scheme.as_str());
                out.append("\"");
                out
            },
            HostError::MissingHost => String::from_str("missing host"),
            HostError::MissingPort => String::from_str("missing port"),
            HostError::InvalidPath => String::from_str("invalid unix socket path"),
        }
    }
}

/// The model of what reading an address yields.
pub open spec fn outcome_view(r: Result<EnarxHost, HostError>) -> Result<HostView, HostErrorView> {
    match r {
        Ok(h) => Ok(h@),
        Err(e) => Err(e@),
    }
}

/// Whether `path` can name a unix socket: a path from the root, or after `@`
/// a name in the abstract namespace.
pub open spec fn valid_unix_path(path: Seq<char>) -> bool {
    path.len() > 0 && (path[0] == '/' || path[0] == '@')
}

/// The host that the components `p` name.
pub open spec fn host_of_parts(p: UrlPartsView) -> Result<HostView, HostErrorView> {
    if p.scheme == "unix"@ {
        if valid_unix_path(p.path) {
            Ok(HostView::Local { path: p.path })
        } else {
            Err(HostErrorView::InvalidPath)
        }
    } else if p.scheme == "tcp"@ {
        match (p.host, p.port) {
            (None, _) => Err(HostErrorView::MissingHost),
            (Some(_), None) => Err(HostErrorView::MissingPort),
            (Some(host), Some(port)) => Ok(HostView::TCP { host, port }),
        }
    } else if p.scheme == "ssh"@ {
        match p.host {
            None => Err(HostErrorView::MissingHost),
            Some(host) => Ok(
                HostView::SSH {
                    host,
                    path: p.path,
                    user: if p.username.len() > 0 {
                        Some(p.username)
                    } else {
                        None
                    },
                    port: p.port,
                },
            ),
        }
    } else {
        Err(HostErrorView::UnknownScheme(p.scheme))
    }
}

/// The error that stands for a text that is no URI.
pub open spec fn error_of_fault(f: UrlFault) -> HostErrorView {
    match f {
        UrlFault::EmptyHost => HostErrorView::MissingHost,
        UrlFault::InvalidPort => HostErrorView::MissingPort,
        UrlFault::Other => HostErrorView::InvalidUrl,
    }
}

/// The host that a text names, given what the text is as a URI.
pub open spec fn host_of_url(u: Result<UrlPartsView, UrlFault>) -> Result<
    HostView,
    HostErrorView,
> {
    match u {
        Ok(p) => host_of_parts(p),
        Err(f) => Err(error_of_fault(f)),
    }
}

/// The canonical text of the host `h`.
pub open spec fn canonical_text(h: HostView) -> Seq<char> {
    match h {
        HostView::Local { path } => "unix:"@ + path,
        HostView::TCP { host, port } => "tcp://"@ + host + ":"@ + decimal_text(port as int),
        HostView::SSH { host, path, user, port } => "ssh://"@ + (match user {
            Some(u) => u + "@"@,
            None => Seq::<char>::empty(),
        }) + host + (match port {
            Some(n) => ":"@ + decimal_text(n as int),
            None => Seq::<char>::empty(),
        }) + path,
    }
}

/// The components that the canonical text of `h` is made of.
pub open spec fn canonical_parts(h: HostView) -> UrlPartsView {
    match h {
        HostView::Local { path } => UrlPartsView {
            scheme: "unix"@,
            username: Seq::<char>::empty(),
            host: None,
            port: None,
            path,
        },
        HostView::TCP { host, port } => UrlPartsView {
            scheme: "tcp"@,
            username: Seq::<char>::empty(),
            host: Some(host),
            port: Some(port),
            path: Seq::<char>::empty(),
        },
        HostView::SSH { host, path, user, port } => UrlPartsView {
            scheme: "ssh"@,
            username: match user {
                Some(u) => u,
                None => Seq::<char>::empty(),
            },
            host: Some(host),
            port,
            path,
        },
    }
}

/// The text of the URI with the components `p`: the scheme and `:`; where there
/// is a host, `//`, the user name with `@` if there is one, the host, and `:`
/// with the port if there is one; then the path.
pub open spec fn uri_text(p: UrlPartsView) -> Seq<char> {
    p.scheme + ":"@ + (match p.host {
        Some(host) => "//"@ + (if p.username.len() > 0 {
            p.username + "@"@
        } else {
            Seq::<char>::empty()
        }) + host + (match p.port {
            Some(n) => ":"@ + decimal_text(n as int),
            None => Seq::<char>::empty(),
        }),
        None => Seq::<char>::empty(),
    }) + p.path
}

/// What the `url` crate makes of a text: its components, or the fault that
/// makes it no URI.
pub uninterp spec fn url_split(text: Seq<char>) -> Result<UrlPartsView, UrlFault>;

/// Parses `text` with `url::Url::parse` and copies out what `Url::scheme`,
/// `Url::username`, `Url::host_str`, `Url::port` and `Url::path` give.
///
/// Not proved: that the outcome depends on the characters of `text` alone,
/// which is what equating it with [`url_split`] claims. Of a text that the
/// parser refuses, only which of its errors it gave is kept: `EmptyHost`,
/// `InvalidPort`, or another.
#[verifier::external_body]
fn split_url(text: &str) -> (r: Result<UrlParts, UrlFault>)
    ensures
        match r {
            Ok(p) => url_split(text@) == Ok::<UrlPartsView, UrlFault>(p@),
            Err(f) => url_split(text@) == Err::<UrlPartsView, UrlFault>(f),
        },
{
    match url::Url::parse(text) {
        Ok(u) => Ok(
            UrlParts {
                scheme: u.scheme().to_string(),
                username: u.username().to_string(),
                host: u.host_str().map(str::to_string),
                port: u.port(),
                path: u.path().to_string(),
            },
        ),
        Err(url::ParseError::EmptyHost) => Err(UrlFault::EmptyHost),
        Err(url::ParseError::InvalidPort) => Err(UrlFault::InvalidPort),
        Err(_) => Err(UrlFault::Other),
    }
}

/// Accepts `s` as the path of a unix socket, or refuses it.
pub fn check_unix_path(s: &str) -> (r: Result<&str, HostError>)
    ensures
        match r {
            Ok(t) => valid_unix_path(s@) && t@ == s@,
            Err(e) => !valid_unix_path(s@) && e == HostError::InvalidPath,
        },
{
    if s.unicode_len() == 0 {
        return Err(HostError::InvalidPath);
    }
    let c: char = s.get_char(0);
    if c == '/' || c == '@' {
        Ok(s)
    } else {
        Err(HostError::InvalidPath)
    }
}

impl EnarxHost {
    /// Names the host that the components of a URI stand for.
    pub fn from_parts(parts: UrlParts) -> (r: Result<EnarxHost, HostError>)
        ensures
            outcome_view(r) == host_of_parts(parts@),
    {
        let UrlParts { scheme, username, host, port, path } = parts;
        if same_text(scheme.as_str(), "unix") {
            match check_unix_path(path.as_str()) {
                Ok(_) => Ok(EnarxHost::Local { path }),
                Err(e) => Err(e),
            }
        } else if same_text(scheme.as_str(), "tcp") {
            match host {
                None => Err(HostError::MissingHost),
                Some(host) => match port {
                    None => Err(HostError::MissingPort),
                    Some(port) => Ok(EnarxHost::TCP { host, port }),
                },
            }
        } else if same_text(scheme.as_str(), "ssh") {
            match host {
                None => Err(HostError::MissingHost),
                Some(host) => {
                    let user = if username.as_str().unicode_len() > 0 {
                        Some(username)
                    } else {
                        None
                    };
                    Ok(EnarxHost::SSH { host, path, user, port })
                },
            }
        } else {
            Err(HostError::UnknownScheme(scheme))
        }
    }

    /// Reads a host from the text of a URI.
    pub fn from_str(s: &str) -> (r: Result<EnarxHost, HostError>)
        ensures
            outcome_view(r) == host_of_url(url_split(s@)),
    {
        match split_url(s) {
            Ok(parts) => EnarxHost::from_parts(parts),
            Err(UrlFault::EmptyHost) => Err(HostError::MissingHost),
            Err(UrlFault::InvalidPort) => Err(HostError::MissingPort),
            Err(UrlFault::Other) => Err(HostError::InvalidUrl),
        }
    }

    /// Writes the host as the canonical text of its URI.
    pub fn to_string(&self) -> (r: String)
        ensures
            r@ == canonical_text(self@),
    {
        match self {
            EnarxHost::Local { path } => {
                let mut out = String::from_str("unix:");
                out.append(path.as_str());
                out
            },
            EnarxHost::TCP { host, port } => {
                let mut out = String::from_str("tcp://");
                out.append(host.as_str());
                out.append(":");
                let digits = decimal(*port as u64);
                out.append(digits.as_str());
                out
            },
            EnarxHost::SSH { host, path, user, port } => {
                let mut out = String::from_str("ssh://");
                match user {
                    Some(u) => {
                        out.append(u.as_str());
                        out.append("@");
                    },
                    None => {
                        assert(out@ + Seq::<char>::empty() =~= out@);
                    },
                }
                out.append(host.as_str());
                let ghost before = out@;
                match port {
                    Some(n) => {
                        let digits = decimal(*n as u64);
                        out.append(":");
                        out.append(digits.as_str());
                        assert(out@ =~= before + (":"@ + decimal_text(*n as int)));
                    },
                    None => {
                        assert(out@ + Seq::<char>::empty() =~= out@);
                    },
                }
                out.append(path.as_str());
                out
            },
        }
    }
}

/// A host read from the components of the canonical text of a host that was
/// itself read from components is that host again: reading, writing and
/// reading once more changes nothing.
pub proof fn lemma_round_trip(p: UrlPartsView)
    requires
        host_of_parts(p) is Ok,
    ensures
        host_of_parts(canonical_parts(host_of_parts(p)->Ok_0)) == host_of_parts(p),
{
    reveal_strlit("unix");
    reveal_strlit("tcp");
    reveal_strlit("ssh");
    let h = host_of_parts(p)->Ok_0;
    match h {
        HostView::Local { path } => {},
        HostView::TCP { host, port } => {
            assert("tcp"@.len() != "unix"@.len());
        },
        HostView::SSH { host, path, user, port } => {
            assert("ssh"@.len() != "unix"@.len());
            assert("ssh"@[0] != "tcp"@[0]);
        },
    }
}

/// Reading a text, writing the host and reading what was written gives the
/// host of the first reading, for every text whose host is written as a URI
/// that the `url` crate cuts into the components it was written from.
pub proof fn lemma_round_trip_text(s: Seq<char>)
    ensures
        host_of_url(url_split(s)) matches Ok(h) ==> (url_split(canonical_text(h)) == Ok::<
            UrlPartsView,
            UrlFault,
        >(canonical_parts(h)) ==> host_of_url(url_split(canonical_text(h))) == host_of_url(
            url_split(s),
        )),
{
    if let Ok(p) = url_split(s) {
        if host_of_parts(p) is Ok {
            lemma_round_trip(p);
        }
    }
}

/// The canonical text of a host that was read from components is the URI
/// whose components are the host's canonical ones.
pub proof fn lemma_canonical_text_is_uri(p: UrlPartsView)
    requires
        host_of_parts(p) is Ok,
    ensures
        canonical_text(host_of_parts(p)->Ok_0) == uri_text(
            canonical_parts(host_of_parts(p)->Ok_0),
        ),
{
    reveal_strlit("unix");
    reveal_strlit("tcp");
    reveal_strlit("ssh");
    reveal_strlit("unix:");
    reveal_strlit("tcp://");
    reveal_strlit("ssh://");
    reveal_strlit(":");
    reveal_strlit("//");
    let h = host_of_parts(p)->Ok_0;
    let q = canonical_parts(h);
    assert("unix:"@ =~= "unix"@ + ":"@);
    assert("tcp://"@ =~= "tcp"@ + ":"@ + "//"@);
    assert("ssh://"@ =~= "ssh"@ + ":"@ + "//"@);
    match h {
        HostView::Local { path } => {
            assert(canonical_text(h) =~= uri_text(q));
        },
        HostView::TCP { host, port } => {
            assert(canonical_text(h) =~= uri_text(q));
        },
        HostView::SSH { host, path, user, port } => {
            assert(canonical_text(h) =~= uri_text(q));
        },
    }
}

} // verus!
