use enarx_cli::host::{check_unix_path, EnarxHost, HostError, UrlParts};

fn read_twice(text: &str) -> EnarxHost {
    let h = EnarxHost::from_str(text).unwrap();
    assert_eq!(h, EnarxHost::from_str(&h.to_string()).unwrap());
    h
}

fn assert_local(text: &str, path: &str) {
    assert_eq!(read_twice(text), EnarxHost::Local { path: path.into() });
}

fn assert_tcp(text: &str, host: &str, port: u16) {
    assert_eq!(read_twice(text), EnarxHost::TCP { host: host.into(), port });
}

fn assert_ssh(text: &str, host: &str, path: &str, user: Option<String>, port: Option<u16>) {
    assert_eq!(
        read_twice(text),
        EnarxHost::SSH {
            host: host.into(),
            path: path.into(),
            port,
            user,
        }
    );
}

fn parts(scheme: &str, username: &str, host: Option<&str>, port: Option<u16>, path: &str) -> UrlParts {
    UrlParts {
        scheme: scheme.to_string(),
        username: username.to_string(),
        host: host.map(str::to_string),
        port,
        path: path.to_string(),
    }
}

#[test]
fn parse_host_url_local() {
    assert_local("unix:/run/enarx/enarx.socket", "/run/enarx/enarx.socket");
    assert_local("unix:@wow, abstract", "@wow, abstract");
    // NOTE: URL parsing can give unexpected results without a hostname...
    assert_local("unix://run/enarx/enarx.socket", "/enarx/enarx.socket");
    assert_local("unix://localhost/run/enarx/enarx.socket", "/run/enarx/enarx.socket");
    // These are definitely no good tho
    assert!(EnarxHost::from_str("unix:").is_err());
    assert!(EnarxHost::from_str("unix:..").is_err());
}

#[test]
fn parse_host_url_tcp() {
    assert_tcp("tcp://localhost:2903", "localhost", 2903);
    assert_tcp("tcp://240.159.140.173:2903", "240.159.140.173", 2903);
    assert_tcp("tcp://[f09f:8cad::]:999", "[f09f:8cad::]", 999);
    // Kinda weird that this is valid but OK.
    assert_tcp("tcp://localhost:000/", "localhost", 0);
    assert!(EnarxHost::from_str("tcp://:2903").is_err());
    assert!(EnarxHost::from_str("tcp://localhost/").is_err());
    assert!(EnarxHost::from_str("tcp://localhost:/").is_err());
}

#[test]
fn parse_host_url_ssh() {
    assert_ssh(
        "ssh://example.com/run/enarx/enarx.socket",
        "example.com",
        "/run/enarx/enarx.socket",
        None,
        None,
    );
    // These paths are useless since there's no filename.
    assert_ssh("ssh://example.com", "example.com", "", None, None);
    assert_ssh("ssh://localhost:2903", "localhost", "", None, Some(2903));
    assert_ssh("ssh://localhost:2903/", "localhost", "/", None, Some(2903));
    assert_ssh(
        "ssh://beefy@example.com/enarx",
        "example.com",
        "/enarx",
        Some("beefy".to_string()),
        None,
    );
}

#[test]
fn host_errors_name_the_fault() {
    assert_eq!(EnarxHost::from_str("unix:"), Err(HostError::InvalidPath));
    assert_eq!(EnarxHost::from_str("unix:.."), Err(HostError::InvalidPath));
    assert_eq!(EnarxHost::from_str("tcp://:2903"), Err(HostError::MissingHost));
    assert_eq!(EnarxHost::from_str("tcp://localhost/"), Err(HostError::MissingPort));
    assert_eq!(EnarxHost::from_str("tcp://localhost:/"), Err(HostError::MissingPort));
    assert_eq!(EnarxHost::from_str("tcp://localhost:port"), Err(HostError::MissingPort));
    assert_eq!(EnarxHost::from_str("tcp:/nohost"), Err(HostError::MissingHost));
    assert_eq!(EnarxHost::from_str("ssh:/nohost"), Err(HostError::MissingHost));
    assert_eq!(
        EnarxHost::from_str("http://example.com/"),
        Err(HostError::UnknownScheme("http".to_string()))
    );
    assert_eq!(EnarxHost::from_str("no uri at all"), Err(HostError::InvalidUrl));
    assert_eq!(EnarxHost::from_str(""), Err(HostError::InvalidUrl));
}

#[test]
fn scheme_is_read_in_lower_case() {
    assert_eq!(
        EnarxHost::from_str("UNIX:/run/enarx.socket"),
        Ok(EnarxHost::Local { path: "/run/enarx.socket".into() })
    );
}

#[test]
fn host_from_parts() {
    assert_eq!(
        EnarxHost::from_parts(parts("unix", "", None, None, "/a")),
        Ok(EnarxHost::Local { path: "/a".into() })
    );
    assert_eq!(
        EnarxHost::from_parts(parts("unix", "", Some("ignored"), Some(1), "@b")),
        Ok(EnarxHost::Local { path: "@b".into() })
    );
    assert_eq!(EnarxHost::from_parts(parts("unix", "", None, None, "")), Err(HostError::InvalidPath));
    assert_eq!(EnarxHost::from_parts(parts("unix", "", None, None, "a/b")), Err(HostError::InvalidPath));
    assert_eq!(
        EnarxHost::from_parts(parts("tcp", "", Some("h"), Some(7), "/ignored")),
        Ok(EnarxHost::TCP { host: "h".into(), port: 7 })
    );
    assert_eq!(EnarxHost::from_parts(parts("tcp", "", None, Some(7), "")), Err(HostError::MissingHost));
    assert_eq!(EnarxHost::from_parts(parts("tcp", "", None, None, "")), Err(HostError::MissingHost));
    assert_eq!(EnarxHost::from_parts(parts("tcp", "", Some("h"), None, "")), Err(HostError::MissingPort));
    assert_eq!(
        EnarxHost::from_parts(parts("ssh", "", Some("h"), None, "")),
        Ok(EnarxHost::SSH { host: "h".into(), path: "".into(), user: None, port: None })
    );
    assert_eq!(
        EnarxHost::from_parts(parts("ssh", "me", Some("h"), Some(22), "/p")),
        Ok(EnarxHost::SSH {
            host: "h".into(),
            path: "/p".into(),
            user: Some("me".to_string()),
            port: Some(22)
        })
    );
    assert_eq!(EnarxHost::from_parts(parts("ssh", "me", None, None, "/p")), Err(HostError::MissingHost));
    assert_eq!(
        EnarxHost::from_parts(parts("ftp", "", Some("h"), None, "/")),
        Err(HostError::UnknownScheme("ftp".to_string()))
    );
}

#[test]
fn host_to_string() {
    assert_eq!(EnarxHost::Local { path: "/run/e.socket".into() }.to_string(), "unix:/run/e.socket");
    assert_eq!(EnarxHost::TCP { host: "localhost".into(), port: 2903 }.to_string(), "tcp://localhost:2903");
    assert_eq!(EnarxHost::TCP { host: "[::1]".into(), port: 0 }.to_string(), "tcp://[::1]:0");
    assert_eq!(EnarxHost::TCP { host: "h".into(), port: 65535 }.to_string(), "tcp://h:65535");
    assert_eq!(
        EnarxHost::SSH { host: "example.com".into(), path: "/enarx".into(), user: None, port: None }.to_string(),
        "ssh://example.com/enarx"
    );
    assert_eq!(
        EnarxHost::SSH {
            host: "example.com".into(),
            path: "/enarx".into(),
            user: Some("beefy".to_string()),
            port: Some(22)
        }
        .to_string(),
        "ssh://beefy@example.com:22/enarx"
    );
    assert_eq!(
        EnarxHost::SSH { host: "example.com".into(), path: "".into(), user: None, port: Some(2903) }.to_string(),
        "ssh://example.com:2903"
    );
}

#[test]
fn unix_path_check() {
    assert_eq!(check_unix_path("/run/x"), Ok("/run/x"));
    assert_eq!(check_unix_path("@abstract"), Ok("@abstract"));
    assert_eq!(check_unix_path(""), Err(HostError::InvalidPath));
    assert_eq!(check_unix_path("run/x"), Err(HostError::InvalidPath));
    assert_eq!(check_unix_path(".."), Err(HostError::InvalidPath));
}

#[test]
fn host_error_text() {
    assert_eq!(HostError::InvalidUrl.to_string(), "invalid URL");
    assert_eq!(HostError::MissingHost.to_string(), "missing host");
    assert_eq!(HostError::MissingPort.to_string(), "missing port");
    assert_eq!(HostError::InvalidPath.to_string(), "invalid unix socket path");
    assert_eq!(
        HostError::UnknownScheme("http".to_string()).to_string(),
        "unknown URL scheme \"http\""
    );
    assert_eq!(
        EnarxHost::from_str("gopher://example.com").unwrap_err().to_string(),
        format!("unknown URL scheme {:?}", "gopher")
    );
}

#[test]
fn a_path_of_two_slashes_is_not_read_back() {
    let h = EnarxHost::from_str("unix://host//name").unwrap();
    assert_eq!(h, EnarxHost::Local { path: "//name".into() });
    assert_eq!(h.to_string(), "unix://name");
    assert_eq!(EnarxHost::from_str(&h.to_string()), Err(HostError::InvalidPath));
}
