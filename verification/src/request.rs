//! Parsing of a client's opening bytes.
//!
//! The first line is tokenized into method, target and version.  A CONNECT
//! with at least three tokens names a `host:port` target whose host part is
//! what the blocklist judges.  Any other request with at least three tokens
//! is inspected only for its Host header (for logging); fewer than three
//! tokens is unsupported.  Tokens are separated by ASCII whitespace.

use vstd::prelude::*;

use crate::bytes::copy_range;
use crate::bytes::first_byte;
use crate::bytes::first_line;
use crate::bytes::lemma_first_byte_is;
use crate::bytes::lines_of;
use crate::bytes::lower;
use crate::bytes::lower_seq;
use crate::bytes::spec_first_line;
use crate::bytes::split_lines;
use crate::bytes::tokenize;
use crate::bytes::tokens_of;
use crate::bytes::trim_bytes;
use crate::bytes::trim_ws;

verus! {

/// A client's opening request, as far as the proxy reads it.
#[derive(Debug)]
pub enum Request {
    /// A CONNECT to `target` (the full `host:port` token); `host` is the
    /// part before the first colon, the value the blocklist judges.
    Connect { target: Vec<u8>, host: Vec<u8> },
    /// Any other request line with at least three tokens; `host` is the
    /// value of its Host header, if one is present, kept for logging only.
    Other { host: Option<Vec<u8>> },
    /// A request line with fewer than three tokens; closed silently.
    Unsupported,
}

/// "CONNECT"
pub open spec fn connect_method() -> Seq<u8> {
    seq![0x43u8, 0x4f, 0x4e, 0x4e, 0x45, 0x43, 0x54]
}

/// "host"
pub open spec fn host_key() -> Seq<u8> {
    seq![0x68u8, 0x6f, 0x73, 0x74]
}

/// The part of `target` before its first colon; all of it when it has
/// none.
pub open spec fn host_part(target: Seq<u8>) -> Seq<u8> {
    target.take(first_byte(target, 0x3a))
}

/// Whether `req` opens with a CONNECT line of at least three tokens.
pub open spec fn is_connect_request(req: Seq<u8>) -> bool {
    let toks = tokens_of(spec_first_line(req));
    toks.len() >= 3 && toks[0] == connect_method()
}

/// Whether `req` opens with a non-CONNECT line of at least three tokens.
pub open spec fn is_plain_request(req: Seq<u8>) -> bool {
    let toks = tokens_of(spec_first_line(req));
    toks.len() >= 3 && toks[0] != connect_method()
}

/// The `host:port` token of a CONNECT request.
pub open spec fn connect_target(req: Seq<u8>) -> Seq<u8> {
    tokens_of(spec_first_line(req))[1]
}

/// The host a CONNECT request asks for.
pub open spec fn connect_host(req: Seq<u8>) -> Seq<u8> {
    host_part(connect_target(req))
}

/// Whether `line` is a header line whose trimmed, lower-cased key is
/// `host`.
pub open spec fn is_host_line(line: Seq<u8>) -> bool {
    first_byte(line, 0x3a) < line.len() && lower_seq(trim_ws(line.take(first_byte(line, 0x3a))))
        == host_key()
}

/// The trimmed value after the first colon of a header line.
pub open spec fn host_line_value(line: Seq<u8>) -> Seq<u8> {
    trim_ws(line.skip(first_byte(line, 0x3a) + 1))
}

/// The index of the first header line (line 1 onward) whose key is
/// `host`, case-insensitively; `lines.len()` when there is none.
pub open spec fn first_host_line_from(lines: Seq<Seq<u8>>, i: int) -> int
    decreases lines.len() - i,
{
    if i < 0 || i >= lines.len() {
        lines.len() as int
    } else if is_host_line(lines[i]) {
        i
    } else {
        first_host_line_from(lines, i + 1)
    }
}

/// The Host header value of `req`: the trimmed text after the colon of
/// the first header line whose trimmed, lower-cased key is `host`.
pub open spec fn spec_host_header(req: Seq<u8>) -> Option<Seq<u8>> {
    let lines = lines_of(req);
    let i = first_host_line_from(lines, 1);
    if i < lines.len() {
        Some(host_line_value(lines[i]))
    } else {
        None
    }
}

/// The first host line is determined by what a scan saw: no host line
/// strictly between `i0` and `j`, and one at `j` unless the scan ran off
/// the end.
pub proof fn lemma_first_host_line_is(lines: Seq<Seq<u8>>, i0: int, j: int)
    requires
        0 <= i0 <= j <= lines.len(),
        forall|k: int| i0 <= k < j ==> !is_host_line(lines[k]),
        j < lines.len() ==> is_host_line(lines[j]),
    ensures
        first_host_line_from(lines, i0) == j,
    decreases j - i0,
{
    if i0 < j {
        lemma_first_host_line_is(lines, i0 + 1, j);
    }
}

/// Whether `t` is exactly the CONNECT method name.
pub fn token_is_connect(t: &[u8]) -> (r: bool)
    ensures
        r == (t@ == connect_method()),
{
    if t.len() != 7 {
        proof {
            assert(connect_method().len() == 7);
        }
        return false;
    }
    let r = t[0] == 0x43 && t[1] == 0x4f && t[2] == 0x4e && t[3] == 0x4e && t[4] == 0x45
        && t[5] == 0x43 && t[6] == 0x54;
    proof {
        if r {
            assert(t@ =~= connect_method());
        } else {
            assert(t@ == connect_method() ==> t@[0] == 0x43 && t@[1] == 0x4f && t@[2] == 0x4e
                && t@[3] == 0x4e && t@[4] == 0x45 && t@[5] == 0x43 && t@[6] == 0x54);
        }
    }
    r
}

/// Whether `t`, lower-cased, is exactly the `host` header key.
pub fn key_is_host(t: &[u8]) -> (r: bool)
    ensures
        r == (lower_seq(t@) == host_key()),
{
    proof {
        assert(lower_seq(t@).len() == t@.len());
    }
    if t.len() != 4 {
        proof {
            assert(host_key().len() == 4);
        }
        return false;
    }
    let r = crate::bytes::to_lower_byte(t[0]) == 0x68 && crate::bytes::to_lower_byte(t[1]) == 0x6f
        && crate::bytes::to_lower_byte(t[2]) == 0x73 && crate::bytes::to_lower_byte(t[3]) == 0x74;
    proof {
        assert(forall|i: int| 0 <= i < t@.len() ==> lower_seq(t@)[i] == lower(t@[i]));
        if r {
            assert(lower_seq(t@) =~= host_key());
        } else {
            assert(lower_seq(t@) == host_key() ==> lower(t@[0]) == 0x68 && lower(t@[1]) == 0x6f
                && lower(t@[2]) == 0x73 && lower(t@[3]) == 0x74);
        }
    }
    r
}

/// The part of `target` before its first colon, as `host_part` describes
/// it.
pub fn split_host(target: &[u8]) -> (r: Vec<u8>)
    ensures
        r@ == host_part(target@),
{
    let mut c: usize = 0;
    while c < target.len() && target[c] != 0x3a
        invariant
            0 <= c <= target@.len(),
            forall|k: int| 0 <= k < c ==> target@[k] != 0x3a,
        decreases target@.len() - c,
    {
        c = c + 1;
    }
    proof {
        lemma_first_byte_is(target@, 0x3a, c as int);
    }
    copy_range(target, 0, c)
}

/// The Host header value of `buf`, as `spec_host_header` describes it.
pub fn find_host_header(buf: &[u8]) -> (r: Option<Vec<u8>>)
    ensures
        r is Some <==> spec_host_header(buf@) is Some,
        r matches Some(v) ==> spec_host_header(buf@) == Some(v@),
{
    let lines = split_lines(buf);
    let ghost lsv = lines.deep_view();
    let n = lines.len();
    if n == 0 {
        return None;
    }
    let mut j: usize = 1;
    while j < n
        invariant
            1 <= j <= n == lines@.len(),
            lsv == lines.deep_view(),
            lsv == lines_of(buf@),
            forall|k: int| 1 <= k < j ==> !is_host_line(lsv[k]),
        decreases n - j,
    {
        let line: &Vec<u8> = &lines[j];
        proof {
            assert(line@ == lsv[j as int]);
        }
        let mut c: usize = 0;
        while c < line.len() && line[c] != 0x3a
            invariant
                0 <= c <= line@.len(),
                forall|k: int| 0 <= k < c ==> line@[k] != 0x3a,
            decreases line@.len() - c,
        {
            c = c + 1;
        }
        proof {
            lemma_first_byte_is(line@, 0x3a, c as int);
        }
        if c < line.len() {
            let before = copy_range(line.as_slice(), 0, c);
            let key = trim_bytes(before.as_slice());
            if key_is_host(key.as_slice()) {
                proof {
                    assert(is_host_line(lsv[j as int]));
                    lemma_first_host_line_is(lsv, 1, j as int);
                }
                let raw = copy_range(line.as_slice(), c + 1, line.len());
                let value = trim_bytes(raw.as_slice());
                proof {
                    assert(raw@ =~= line@.skip(first_byte(line@, 0x3a) + 1));
                }
                return Some(value);
            } else {
                proof {
                    assert(before@ =~= line@.take(first_byte(line@, 0x3a)));
                    assert(!is_host_line(lsv[j as int]));
                }
            }
        } else {
            proof {
                assert(first_byte(line@, 0x3a) == line@.len());
                assert(!is_host_line(lsv[j as int]));
            }
        }
        j = j + 1;
    }
    proof {
        lemma_first_host_line_is(lsv, 1, n as int);
    }
    None
}

/// Parses a client's opening bytes into the request the proxy acts on.
pub fn parse_request(buf: &[u8]) -> (r: Request)
    ensures
        is_connect_request(buf@) ==> (r matches Request::Connect { target, host }
            && target@ == connect_target(buf@) && host@ == connect_host(buf@)),
        is_plain_request(buf@) ==> (r matches Request::Other { host }
            && (host is Some <==> spec_host_header(buf@) is Some)
            && (host matches Some(h) ==> spec_host_header(buf@) == Some(h@))),
        !is_connect_request(buf@) && !is_plain_request(buf@) ==> r is Unsupported,
{
    let line = first_line(buf);
    let toks = tokenize(line.as_slice());
    let ghost tv = toks.deep_view();
    proof {
        assert(tv == tokens_of(spec_first_line(buf@)));
    }
    if toks.len() >= 3 {
        proof {
            assert(toks@[0].deep_view() == tv[0]);
            assert(toks@[1].deep_view() == tv[1]);
            assert(toks@[0]@ =~= toks@[0].deep_view());
            assert(toks@[1]@ =~= toks@[1].deep_view());
        }
        if token_is_connect(toks[0].as_slice()) {
            let target = copy_range(toks[1].as_slice(), 0, toks[1].len());
            proof {
                assert(target@ =~= tv[1]);
            }
            let host = split_host(target.as_slice());
            Request::Connect { target, host }
        } else {
            let host = find_host_header(buf);
            Request::Other { host }
        }
    } else {
        Request::Unsupported
    }
}

} // verus!
