//! The response lines the proxy can emit.
//!
//! Exactly one of these literal lines, CRLFCRLF-terminated and without a
//! body, is written per decision point; every other path closes the
//! connection silently.

use vstd::prelude::*;

verus! {

/// The four decision-point responses.
#[derive(Clone, Copy, Debug, PartialEq, Eq, Structural)]
pub enum ResponseLine {
    /// The upstream connection stands; the tunnel follows.
    Established,
    /// The blocklist (or the fail-closed stance) denied the host.
    Forbidden,
    /// The upstream connect failed.
    BadGateway,
    /// The upstream connect ran out of time.
    GatewayTimeout,
}

/// "HTTP/1.1 200 Connection Established\r\n\r\n"
pub open spec fn established_bytes() -> Seq<u8> {
    seq![
        0x48u8, 0x54, 0x54, 0x50, 0x2f, 0x31, 0x2e, 0x31, 0x20, 0x32, 0x30, 0x30, 0x20, 0x43,
        0x6f, 0x6e, 0x6e, 0x65, 0x63, 0x74, 0x69, 0x6f, 0x6e, 0x20, 0x45, 0x73, 0x74, 0x61, 0x62,
        0x6c, 0x69, 0x73, 0x68, 0x65, 0x64, 0x0d, 0x0a, 0x0d, 0x0a,
    ]
}

/// "HTTP/1.1 403 Forbidden\r\n\r\n"
pub open spec fn forbidden_bytes() -> Seq<u8> {
    seq![
        0x48u8, 0x54, 0x54, 0x50, 0x2f, 0x31, 0x2e, 0x31, 0x20, 0x34, 0x30, 0x33, 0x20, 0x46,
        0x6f, 0x72, 0x62, 0x69, 0x64, 0x64, 0x65, 0x6e, 0x0d, 0x0a, 0x0d, 0x0a,
    ]
}

/// "HTTP/1.1 502 Bad Gateway\r\n\r\n"
pub open spec fn bad_gateway_bytes() -> Seq<u8> {
    seq![
        0x48u8, 0x54, 0x54, 0x50, 0x2f, 0x31, 0x2e, 0x31, 0x20, 0x35, 0x30, 0x32, 0x20, 0x42,
        0x61, 0x64, 0x20, 0x47, 0x61, 0x74, 0x65, 0x77, 0x61, 0x79, 0x0d, 0x0a, 0x0d, 0x0a,
    ]
}

/// "HTTP/1.1 504 Gateway Timeout\r\n\r\n"
pub open spec fn gateway_timeout_bytes() -> Seq<u8> {
    seq![
        0x48u8, 0x54, 0x54, 0x50, 0x2f, 0x31, 0x2e, 0x31, 0x20, 0x35, 0x30, 0x34, 0x20, 0x47,
        0x61, 0x74, 0x65, 0x77, 0x61, 0x79, 0x20, 0x54, 0x69, 0x6d, 0x65, 0x6f, 0x75, 0x74, 0x0d,
        0x0a, 0x0d, 0x0a,
    ]
}

/// The wire bytes of `line`.
pub open spec fn spec_response_bytes(line: ResponseLine) -> Seq<u8> {
    match line {
        ResponseLine::Established => established_bytes(),
        ResponseLine::Forbidden => forbidden_bytes(),
        ResponseLine::BadGateway => bad_gateway_bytes(),
        ResponseLine::GatewayTimeout => gateway_timeout_bytes(),
    }
}

/// The exact bytes to write for `line`.
pub fn response_bytes(line: ResponseLine) -> (r: Vec<u8>)
    ensures
        r@ == spec_response_bytes(line),
{
    let r: Vec<u8> = match line {
        ResponseLine::Established => vec![
            0x48u8, 0x54, 0x54, 0x50, 0x2f, 0x31, 0x2e, 0x31, 0x20, 0x32, 0x30, 0x30, 0x20, 0x43,
            0x6f, 0x6e, 0x6e, 0x65, 0x63, 0x74, 0x69, 0x6f, 0x6e, 0x20, 0x45, 0x73, 0x74, 0x61,
            0x62, 0x6c, 0x69, 0x73, 0x68, 0x65, 0x64, 0x0d, 0x0a, 0x0d, 0x0a,
        ],
        ResponseLine::Forbidden => vec![
            0x48u8, 0x54, 0x54, 0x50, 0x2f, 0x31, 0x2e, 0x31, 0x20, 0x34, 0x30, 0x33, 0x20, 0x46,
            0x6f, 0x72, 0x62, 0x69, 0x64, 0x64, 0x65, 0x6e, 0x0d, 0x0a, 0x0d, 0x0a,
        ],
        ResponseLine::BadGateway => vec![
            0x48u8, 0x54, 0x54, 0x50, 0x2f, 0x31, 0x2e, 0x31, 0x20, 0x35, 0x30, 0x32, 0x20, 0x42,
            0x61, 0x64, 0x20, 0x47, 0x61, 0x74, 0x65, 0x77, 0x61, 0x79, 0x0d, 0x0a, 0x0d, 0x0a,
        ],
        ResponseLine::GatewayTimeout => vec![
            0x48u8, 0x54, 0x54, 0x50, 0x2f, 0x31, 0x2e, 0x31, 0x20, 0x35, 0x30, 0x34, 0x20, 0x47,
            0x61, 0x74, 0x65, 0x77, 0x61, 0x79, 0x20, 0x54, 0x69, 0x6d, 0x65, 0x6f, 0x75, 0x74,
            0x0d, 0x0a, 0x0d, 0x0a,
        ],
    };
    proof {
        assert(r@ =~= spec_response_bytes(line));
    }
    r
}

} // verus!
