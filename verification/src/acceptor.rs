//! Decisions of the accept loop and the health monitor.
//!
//! The accept loop's select is biased: the shutdown branch is judged
//! before the accept branch, so a pending shutdown is never starved by a
//! burst of connections.  A handler runs in its own task; its failure
//! never reaches the acceptor.  The health monitor is advisory only: it
//! warns, and never restarts anything.

use vstd::prelude::*;

verus! {

/// What the accept loop does with one select arrival.
#[derive(Clone, Copy, Debug, PartialEq, Eq, Structural)]
pub enum AcceptAction {
    /// Leave the loop; the instance shuts down.
    StopLoop,
    /// Hand the accepted connection to an isolated handler task.
    SpawnHandler,
    /// Log the accept error and back off briefly before retrying.
    BackoffRetry,
}

/// Decides one arrival at the accept loop: `shutdown` says the shutdown
/// signal was delivered — it wins over whatever the accept returned —
/// and `accept_ok` whether the accept succeeded.
pub fn accept_step(shutdown: bool, accept_ok: bool) -> (a: AcceptAction)
    ensures
        shutdown ==> a == AcceptAction::StopLoop,
        !shutdown && accept_ok ==> a == AcceptAction::SpawnHandler,
        !shutdown && !accept_ok ==> a == AcceptAction::BackoffRetry,
{
    if shutdown {
        AcceptAction::StopLoop
    } else if accept_ok {
        AcceptAction::SpawnHandler
    } else {
        AcceptAction::BackoffRetry
    }
}

/// Judges one health self-probe: a failed connect earns a warning and
/// nothing more.
pub fn health_verdict(connect_ok: bool) -> (warn: bool)
    ensures
        warn == !connect_ok,
{
    !connect_ok
}

} // verus!
