//! The system-configuration collaborator's data: what it reports and how
//! it fails.
//!
//! The platform-specific side effects — registry, firewall — live
//! entirely outside this core; here stand their error taxonomy and the
//! classification of an observed platform version.

use vstd::prelude::*;

use vstd::string::StringExecFns;

verus! {

/// What a platform probe found.
#[derive(Clone, Copy, Debug, PartialEq, Eq, Structural)]
pub struct SystemCheck {
    pub is_windows: bool,
    pub is_64bit: bool,
    pub is_win10_or_later: bool,
}

/// How the system-proxy collaborator fails.
#[derive(Debug)]
pub enum SystemProxyError {
    ProcessError(String),
    RegistryError(String),
}

impl SystemProxyError {
    /// The error's text, prefixed with its kind.
    pub fn message(&self) -> (s: String)
        ensures
            self matches SystemProxyError::ProcessError(m) ==> s@ == "Process error: "@ + m@,
            self matches SystemProxyError::RegistryError(m) ==> s@ == "Registry error: "@ + m@,
    {
        match self {
            SystemProxyError::ProcessError(m) => {
                let mut s = "Process error: ".to_owned();
                s.append(m.as_str());
                s
            },
            SystemProxyError::RegistryError(m) => {
                let mut s = "Registry error: ".to_owned();
                s.append(m.as_str());
                s
            },
        }
    }
}

/// The system-proxy collaborator.  Its platform calls live in the shell;
/// what can be judged from plain observations is judged here.
pub struct WindowsSystemProxy;

impl WindowsSystemProxy {
    /// Classifies an observed platform: `major` and `minor` are the
    /// reported OS version, meaningful only on Windows, where major
    /// version ten is the first that counts as current.
    pub fn system_check(is_windows: bool, is_64bit: bool, major: u32, minor: u32) -> (c:
        SystemCheck)
        ensures
            c.is_windows == is_windows,
            c.is_64bit == is_64bit,
            c.is_win10_or_later == (is_windows && (major > 10 || (major == 10 && minor >= 0))),
    {
        SystemCheck {
            is_windows,
            is_64bit,
            is_win10_or_later: is_windows && major >= 10,
        }
    }
}

} // verus!
