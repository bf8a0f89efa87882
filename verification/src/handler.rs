//! Per-connection decisions.
//!
//! One connection runs `ReadingRequest -> Parsed -> {Blocked |
//! TunnelEstablished | UpstreamFailed | Unsupported} -> Closed`.  The
//! functions here decide each arrow; the shell around them only reads,
//! writes, connects and reports the outcomes back.

use vstd::prelude::*;

use crate::blocklist::BlocklistCache;
use crate::bytes::copy_range;
use crate::request::Request;
use crate::request::connect_target;
use crate::request::is_connect_request;
use crate::request::parse_request;
use crate::response::ResponseLine;

verus! {

/// What the blocklist said about a CONNECT host.
#[derive(Clone, Copy, Debug, PartialEq, Eq, Structural)]
pub enum Decision {
    Allowed,
    Blocked,
}

/// The fail-closed connect decision: `lookup` is the cache's answer, or
/// `None` when the lock could not be read — which blocks, deny-by-default.
pub open spec fn spec_decision(lookup: Option<bool>) -> Decision {
    match lookup {
        Some(false) => Decision::Allowed,
        _ => Decision::Blocked,
    }
}

/// Exec mirror of `spec_decision`.
pub fn connect_decision(lookup: Option<bool>) -> (d: Decision)
    ensures
        d == spec_decision(lookup),
{
    match lookup {
        Some(false) => Decision::Allowed,
        _ => Decision::Blocked,
    }
}

/// The outcome of the opening read, as the shell observed it.
#[derive(Clone, Copy, Debug, PartialEq, Eq, Structural)]
pub enum ReadOutcome {
    /// The read returned this many bytes; zero means the client closed.
    Bytes(usize),
    /// No data arrived within the read timeout.
    TimedOut,
    /// The read itself failed.
    Failed,
}

/// What to do after the opening read.
#[derive(Clone, Copy, Debug, PartialEq, Eq, Structural)]
pub enum ReadStep {
    /// Parse the received bytes and go on.
    Parse,
    /// End the connection silently; this is normal termination.
    CloseSilent,
    /// End the connection and surface the I/O error.
    AbandonError,
}

/// Decides the `ReadingRequest` phase: an empty read or a timeout ends
/// the connection silently, with no response; only received bytes are
/// parsed.
pub fn read_step(o: ReadOutcome) -> (s: ReadStep)
    ensures
        o matches ReadOutcome::Bytes(n) ==> s == (if n == 0 {
            ReadStep::CloseSilent
        } else {
            ReadStep::Parse
        }),
        o is TimedOut ==> s == ReadStep::CloseSilent,
        o is Failed ==> s == ReadStep::AbandonError,
{
    match o {
        ReadOutcome::Bytes(n) => if n == 0 {
            ReadStep::CloseSilent
        } else {
            ReadStep::Parse
        },
        ReadOutcome::TimedOut => ReadStep::CloseSilent,
        ReadOutcome::Failed => ReadStep::AbandonError,
    }
}

/// The action a parsed request leads to.
#[derive(Debug)]
pub enum InitialAction {
    /// Close without sending anything: unsupported or non-CONNECT
    /// requests, which get no response by design.
    CloseSilent,
    /// Write the 403 line and close; no upstream connect is attempted.
    SendForbidden,
    /// Attempt the upstream connect to this `host:port` target.
    OpenUpstream(Vec<u8>),
}

/// Ghost mirror of `InitialAction`, for stating the laws.
pub enum SpecAction {
    CloseSilent,
    SendForbidden,
    OpenUpstream(Seq<u8>),
}

/// What a request with this lookup answer must lead to.
pub open spec fn spec_initial_action(req: Seq<u8>, lookup: Option<bool>) -> SpecAction {
    if is_connect_request(req) {
        if spec_decision(lookup) is Blocked {
            SpecAction::SendForbidden
        } else {
            SpecAction::OpenUpstream(connect_target(req))
        }
    } else {
        SpecAction::CloseSilent
    }
}

/// Decides the `Parsed` phase from the parsed request and the blocklist
/// answer for its host (`None`: the lock could not be read; blocked).
pub fn initial_action(req: &Request, lookup: Option<bool>) -> (a: InitialAction)
    ensures
        req is Other || req is Unsupported ==> a is CloseSilent,
        req matches Request::Connect { target, host } ==> (
            (spec_decision(lookup) is Blocked ==> a is SendForbidden)
            && (spec_decision(lookup) is Allowed ==> (a matches InitialAction::OpenUpstream(t)
                && t@ == target@))),
{
    match req {
        Request::Connect { target, host: _ } => {
            match connect_decision(lookup) {
                Decision::Blocked => InitialAction::SendForbidden,
                Decision::Allowed => InitialAction::OpenUpstream(
                    copy_range(target.as_slice(), 0, target.len()),
                ),
            }
        },
        Request::Other { .. } => InitialAction::CloseSilent,
        Request::Unsupported => InitialAction::CloseSilent,
    }
}

/// Decides the `Parsed` phase straight from a cache read: `cache_read` is
/// the cache behind a successfully acquired read lock, or `None` when the
/// lock was poisoned, which blocks the connection fail-closed.
pub fn plan_with_cache(req: &Request, cache_read: Option<&BlocklistCache>) -> (a: InitialAction)
    ensures
        req is Other || req is Unsupported ==> a is CloseSilent,
        req matches Request::Connect { target, host } ==> match cache_read {
            Some(c) => (c@.contains(host@) ==> a is SendForbidden) && (!c@.contains(host@)
                ==> (a matches InitialAction::OpenUpstream(t) && t@ == target@)),
            None => a is SendForbidden,
        },
{
    match req {
        Request::Connect { target: _, host } => {
            let lookup = match cache_read {
                Some(c) => Some(c.lookup(host.as_slice())),
                None => None,
            };
            initial_action(req, lookup)
        },
        _ => initial_action(req, None),
    }
}

/// The lookup a cache read amounts to: the cache's answer for the
/// CONNECT host, or `None` when the lock could not be read.
pub open spec fn spec_lookup(req: Seq<u8>, cache: Option<Set<Seq<u8>>>) -> Option<bool> {
    match cache {
        Some(s) => Some(s.contains(crate::request::connect_host(req))),
        None => None,
    }
}

/// Parses a client's opening bytes and decides the `Parsed` phase in one
/// step, against the cache behind a read lock (`None`: poisoned, which
/// blocks).  The parsed request comes along for the shell's logging.
pub fn decide_request(buf: &[u8], cache_read: Option<&BlocklistCache>) -> (r: (
    Request,
    InitialAction,
))
    ensures
        ({
            let cache_view = match cache_read {
                Some(c) => Some(c@),
                None => None,
            };
            let planned = spec_initial_action(buf@, spec_lookup(buf@, cache_view));
            &&& (planned is CloseSilent ==> r.1 is CloseSilent)
            &&& (planned is SendForbidden ==> r.1 is SendForbidden)
            &&& (planned matches SpecAction::OpenUpstream(t) ==> (r.1
                matches InitialAction::OpenUpstream(v) && v@ == t))
        }),
{
    let request = parse_request(buf);
    let action = plan_with_cache(&request, cache_read);
    (request, action)
}

/// The outcome of the upstream connect attempt, as the shell observed it.
#[derive(Clone, Copy, Debug, PartialEq, Eq, Structural)]
pub enum UpstreamOutcome {
    /// Connected within the timeout; reply 200 and tunnel.
    Connected,
    /// The connect failed; reply 502.
    ConnectFailed,
    /// The connect ran out of time; reply 504.
    ConnectTimedOut,
}

/// The response each upstream outcome earns.
pub open spec fn spec_upstream_response(o: UpstreamOutcome) -> ResponseLine {
    match o {
        UpstreamOutcome::Connected => ResponseLine::Established,
        UpstreamOutcome::ConnectFailed => ResponseLine::BadGateway,
        UpstreamOutcome::ConnectTimedOut => ResponseLine::GatewayTimeout,
    }
}

/// Decides the post-connect phase: which line to write, and whether the
/// tunnel follows (it does exactly when the connect succeeded).
pub fn upstream_action(o: UpstreamOutcome) -> (r: (ResponseLine, bool))
    ensures
        r.0 == spec_upstream_response(o),
        r.1 == (o is Connected),
{
    match o {
        UpstreamOutcome::Connected => (ResponseLine::Established, true),
        UpstreamOutcome::ConnectFailed => (ResponseLine::BadGateway, false),
        UpstreamOutcome::ConnectTimedOut => (ResponseLine::GatewayTimeout, false),
    }
}

/// All the response bytes a connection's client is sent, given what the
/// lookup said and what an upstream attempt — had one been made — would
/// have come to.
pub open spec fn spec_client_reply(
    req: Seq<u8>,
    lookup: Option<bool>,
    upstream: UpstreamOutcome,
) -> Seq<u8> {
    match spec_initial_action(req, lookup) {
        SpecAction::CloseSilent => Seq::empty(),
        SpecAction::SendForbidden => crate::response::forbidden_bytes(),
        SpecAction::OpenUpstream(_) => crate::response::spec_response_bytes(
            spec_upstream_response(upstream),
        ),
    }
}

/// Law: a CONNECT to a host in the blocklist is answered with exactly the
/// 403 line — whatever any upstream would have said, for none is tried —
/// and no upstream connect is planned; a lookup that could not read the
/// lock blocks the same way.
pub proof fn lemma_blocked_connect(req: Seq<u8>, blocked: Set<Seq<u8>>, lookup: Option<bool>)
    requires
        is_connect_request(req),
        blocked.contains(crate::request::connect_host(req)),
        lookup == Some(blocked.contains(crate::request::connect_host(req))) || lookup is None,
    ensures
        spec_initial_action(req, lookup) == SpecAction::SendForbidden,
        !(spec_initial_action(req, lookup) is OpenUpstream),
        forall|u: UpstreamOutcome| spec_client_reply(req, lookup, u)
            == crate::response::forbidden_bytes(),
{
}

/// Law: a CONNECT to a host not in the blocklist, judged by a readable
/// cache, is planned as an upstream attempt on the request's own target;
/// a reachable upstream earns exactly the 200 line and the tunnel, a
/// failed connect exactly the 502 line, a lapsed one exactly the 504
/// line.
pub proof fn lemma_allowed_connect(req: Seq<u8>, blocked: Set<Seq<u8>>)
    requires
        is_connect_request(req),
        !blocked.contains(crate::request::connect_host(req)),
    ensures
        spec_initial_action(req, Some(blocked.contains(crate::request::connect_host(req))))
            == SpecAction::OpenUpstream(connect_target(req)),
        spec_upstream_response(UpstreamOutcome::Connected) == ResponseLine::Established,
        spec_client_reply(
            req,
            Some(false),
            UpstreamOutcome::Connected,
        ) == crate::response::established_bytes(),
        spec_client_reply(
            req,
            Some(false),
            UpstreamOutcome::ConnectFailed,
        ) == crate::response::bad_gateway_bytes(),
        spec_client_reply(
            req,
            Some(false),
            UpstreamOutcome::ConnectTimedOut,
        ) == crate::response::gateway_timeout_bytes(),
{
}

/// Law: a request that is not a CONNECT with at least three tokens is
/// closed silently — not one response byte, whatever the blocklist
/// holds.
pub proof fn lemma_non_connect_silent(req: Seq<u8>, lookup: Option<bool>)
    requires
        !is_connect_request(req),
    ensures
        spec_initial_action(req, lookup) == SpecAction::CloseSilent,
        forall|u: UpstreamOutcome| spec_client_reply(req, lookup, u) == Seq::<u8>::empty(),
{
}

} // verus!
