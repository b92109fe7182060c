//! Runtime configuration and the operator's session document.
//!
//! `Config` holds the values the proxy is started with; `Session` is the
//! small durable document that is loaded at startup and written back out on
//! the save command.  Reading the command line, the configuration file and
//! the session file is I/O and happens outside the library; the library only
//! holds the resulting plain values and round-trips them unchanged.

use vstd::prelude::*;

verus! {

/// The default TCP port the proxy listens on when none is configured.
pub const DEFAULT_PORT: u16 = 8080;

/// The values the proxy runs with: the local port to listen on and, if one
/// was configured, the path of the session file to restore and save.
#[derive(Debug)]
pub struct Config {
    pub port: u16,
    pub session_file: Option<String>,
}

impl Default for Config {
    /// The configuration used when nothing was given: the default port and
    /// no session file.
    fn default() -> (c: Config)
        ensures
            c.port == DEFAULT_PORT,
            c.session_file is None,
    {
        Config { port: DEFAULT_PORT, session_file: None }
    }
}

/// The operator's session document: a filter string that is restored at
/// startup and written back out verbatim on the save command.
#[derive(Debug)]
pub struct Session {
    pub filter: String,
}

impl Default for Session {
    /// A fresh session holds an empty filter.
    fn default() -> (s: Session)
        ensures
            s.filter@ == Seq::<char>::empty(),
    {
        Session { filter: String::new() }
    }
}

} // verus!
