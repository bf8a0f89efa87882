//! The texts the proxy logs.
//!
//! Writing to the console is the shell's business; the exact wording is
//! composed here.  Addresses and errors arrive already rendered as text.

use vstd::prelude::*;

use vstd::string::StringExecFns;

verus! {

/// Composes the proxy's log lines.
pub struct ProxyLogger;

impl ProxyLogger {
    /// The line announcing the listening endpoint.
    pub fn start_message(addr: &str) -> (s: String)
        ensures
            s@ == "Proxy running at http://"@ + addr@,
    {
        let mut s = "Proxy running at http://".to_owned();
        s.append(addr);
        s
    }

    /// The line announcing an established upstream connection.
    pub fn connection_established_message(target: &str) -> (s: String)
        ensures
            s@ == "Connection established to "@ + target@,
    {
        let mut s = "Connection established to ".to_owned();
        s.append(target);
        s
    }

    /// The line announcing a failed upstream connection.
    pub fn connection_failed_message(target: &str, error: &str) -> (s: String)
        ensures
            s@ == "Failed to connect to "@ + target@ + ": "@ + error@,
    {
        let mut s = "Failed to connect to ".to_owned();
        s.append(target);
        s.append(": ");
        s.append(error);
        s
    }

    /// The line announcing an error, with its context.
    pub fn error_message(context: &str, error: &str) -> (s: String)
        ensures
            s@ == "Error in "@ + context@ + ": "@ + error@,
    {
        let mut s = "Error in ".to_owned();
        s.append(context);
        s.append(": ");
        s.append(error);
        s
    }
}

} // verus!
