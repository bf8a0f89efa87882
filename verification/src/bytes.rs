//! Byte-level text helpers for the wire surface.
//!
//! A request arrives as raw bytes; the engine models it as such.  Lines are
//! separated by a line-feed byte with an optional carriage return before it,
//! tokens by runs of ASCII whitespace, exactly as the request-line grammar
//! needs.

use vstd::prelude::*;

verus! {

/// ASCII whitespace: space, tab, line feed, vertical tab, form feed,
/// carriage return.
pub open spec fn is_ws(b: u8) -> bool {
    b == 0x20 || (0x09 <= b && b <= 0x0d)
}

/// Lower-cases one ASCII letter; any other byte is unchanged.
pub open spec fn lower(b: u8) -> u8 {
    if 0x41 <= b && b <= 0x5a {
        (b + 0x20) as u8
    } else {
        b
    }
}

/// Lower-cases every byte of `s` as `lower` does.
pub open spec fn lower_seq(s: Seq<u8>) -> Seq<u8> {
    s.map_values(|b: u8| lower(b))
}

/// Index of the first occurrence of `b` in `s`, or `s.len()` when `b`
/// does not occur.
pub open spec fn first_byte(s: Seq<u8>, b: u8) -> int
    decreases s.len(),
{
    if s.len() == 0 {
        0
    } else if s[0] == b {
        0
    } else {
        1 + first_byte(s.drop_first(), b)
    }
}

/// Index of the first ASCII-whitespace byte of `s`, or `s.len()` when
/// there is none.
pub open spec fn first_ws(s: Seq<u8>) -> int
    decreases s.len(),
{
    if s.len() == 0 {
        0
    } else if is_ws(s[0]) {
        0
    } else {
        1 + first_ws(s.drop_first())
    }
}

pub proof fn lemma_first_byte(s: Seq<u8>, b: u8)
    ensures
        0 <= first_byte(s, b) <= s.len(),
        first_byte(s, b) < s.len() ==> s[first_byte(s, b)] == b,
        forall|k: int| 0 <= k < first_byte(s, b) ==> s[k] != b,
    decreases s.len(),
{
    if s.len() > 0 && s[0] != b {
        lemma_first_byte(s.drop_first(), b);
        assert forall|k: int| 0 <= k < first_byte(s, b) implies s[k] != b by {
            if k > 0 {
                assert(s.drop_first()[k - 1] == s[k]);
            }
        }
    }
}

/// The first occurrence is determined by what a scan saw: nothing equal to
/// `b` before `j`, and `b` at `j` unless the scan ran off the end.
pub proof fn lemma_first_byte_is(s: Seq<u8>, b: u8, j: int)
    requires
        0 <= j <= s.len(),
        forall|k: int| 0 <= k < j ==> s[k] != b,
        j < s.len() ==> s[j] == b,
    ensures
        first_byte(s, b) == j,
{
    lemma_first_byte(s, b);
}

pub proof fn lemma_first_ws(s: Seq<u8>)
    ensures
        0 <= first_ws(s) <= s.len(),
        first_ws(s) < s.len() ==> is_ws(s[first_ws(s)]),
        forall|k: int| 0 <= k < first_ws(s) ==> !is_ws(s[k]),
    decreases s.len(),
{
    if s.len() > 0 && !is_ws(s[0]) {
        lemma_first_ws(s.drop_first());
        assert forall|k: int| 0 <= k < first_ws(s) implies !is_ws(s[k]) by {
            if k > 0 {
                assert(s.drop_first()[k - 1] == s[k]);
            }
        }
    }
}

pub proof fn lemma_first_ws_is(s: Seq<u8>, j: int)
    requires
        0 <= j <= s.len(),
        forall|k: int| 0 <= k < j ==> !is_ws(s[k]),
        j < s.len() ==> is_ws(s[j]),
    ensures
        first_ws(s) == j,
{
    lemma_first_ws(s);
}

/// `s` without a final carriage return, if it carries one.
pub open spec fn strip_cr(s: Seq<u8>) -> Seq<u8> {
    if s.len() > 0 && s.last() == 0x0d {
        s.drop_last()
    } else {
        s
    }
}

/// The first line of `s`: everything before the first line feed, without a
/// trailing carriage return.
pub open spec fn spec_first_line(s: Seq<u8>) -> Seq<u8> {
    strip_cr(s.take(first_byte(s, 0x0a)))
}

/// The lines of `s`, split at line feeds, each without its trailing
/// carriage return; a final line feed ends the last line rather than
/// opening an empty one.
pub open spec fn lines_of(s: Seq<u8>) -> Seq<Seq<u8>>
    decreases s.len(),
    via lines_of_decreases
{
    if s.len() == 0 {
        seq![]
    } else {
        let e = first_byte(s, 0x0a);
        seq![strip_cr(s.take(e))] + (if e == s.len() {
            seq![]
        } else {
            lines_of(s.skip(e + 1))
        })
    }
}

#[via_fn]
proof fn lines_of_decreases(s: Seq<u8>) {
    if s.len() > 0 {
        lemma_first_byte(s, 0x0a);
    }
}

/// The whitespace-separated tokens of `s`, in order.
pub open spec fn tokens_of(s: Seq<u8>) -> Seq<Seq<u8>>
    decreases s.len(),
    via tokens_of_decreases
{
    if s.len() == 0 {
        seq![]
    } else if is_ws(s[0]) {
        tokens_of(s.drop_first())
    } else {
        let t = first_ws(s);
        seq![s.take(t)] + tokens_of(s.skip(t))
    }
}

#[via_fn]
proof fn tokens_of_decreases(s: Seq<u8>) {
    if s.len() > 0 && !is_ws(s[0]) {
        lemma_first_ws(s);
    }
}

/// `s` with leading ASCII whitespace removed.
pub open spec fn ltrim(s: Seq<u8>) -> Seq<u8>
    decreases s.len(),
{
    if s.len() == 0 || !is_ws(s[0]) {
        s
    } else {
        ltrim(s.drop_first())
    }
}

/// `s` with trailing ASCII whitespace removed.
pub open spec fn rtrim(s: Seq<u8>) -> Seq<u8>
    decreases s.len(),
{
    if s.len() == 0 || !is_ws(s.last()) {
        s
    } else {
        rtrim(s.drop_last())
    }
}

/// `s` with leading and trailing ASCII whitespace removed.
pub open spec fn trim_ws(s: Seq<u8>) -> Seq<u8> {
    rtrim(ltrim(s))
}

pub proof fn lemma_ltrim_is(s: Seq<u8>, a: int)
    requires
        0 <= a <= s.len(),
        forall|k: int| 0 <= k < a ==> is_ws(s[k]),
        a < s.len() ==> !is_ws(s[a]),
    ensures
        ltrim(s) == s.skip(a),
    decreases a,
{
    if a == 0 {
        assert(s.skip(0) =~= s);
    } else {
        lemma_ltrim_is(s.drop_first(), a - 1);
        assert(s.drop_first().skip(a - 1) =~= s.skip(a));
    }
}

pub proof fn lemma_rtrim_is(s: Seq<u8>, b: int)
    requires
        0 <= b <= s.len(),
        forall|k: int| b <= k < s.len() ==> is_ws(s[k]),
        b > 0 ==> !is_ws(s[b - 1]),
    ensures
        rtrim(s) == s.take(b),
    decreases s.len() - b,
{
    if b == s.len() {
        assert(s.take(b) =~= s);
    } else {
        lemma_rtrim_is(s.drop_last(), b);
        assert(s.drop_last().take(b) =~= s.take(b));
    }
}

/// Exec mirror of `is_ws`.
pub fn is_whitespace_byte(b: u8) -> (r: bool)
    ensures
        r == is_ws(b),
{
    b == 0x20 || (0x09 <= b && b <= 0x0d)
}

/// Exec mirror of `lower`.
pub fn to_lower_byte(b: u8) -> (r: u8)
    ensures
        r == lower(b),
{
    if 0x41 <= b && b <= 0x5a {
        b + 0x20
    } else {
        b
    }
}

/// Copies `s[from..to]` into a fresh vector.
pub fn copy_range(s: &[u8], from: usize, to: usize) -> (r: Vec<u8>)
    requires
        from <= to <= s@.len(),
    ensures
        r@ == s@.subrange(from as int, to as int),
{
    let mut r: Vec<u8> = Vec::new();
    let mut k: usize = from;
    while k < to
        invariant
            from <= k <= to <= s@.len(),
            r@ == s@.subrange(from as int, k as int),
        decreases to - k,
    {
        r.push(s[k]);
        assert(r@ =~= s@.subrange(from as int, k + 1 as int));
        k = k + 1;
    }
    r
}

/// Whether two byte strings hold the same bytes.
pub fn bytes_equal(a: &[u8], b: &[u8]) -> (r: bool)
    ensures
        r == (a@ == b@),
{
    if a.len() != b.len() {
        return false;
    }
    let mut i: usize = 0;
    while i < a.len()
        invariant
            0 <= i <= a@.len() == b@.len(),
            forall|k: int| 0 <= k < i ==> a@[k] == b@[k],
        decreases a@.len() - i,
    {
        if a[i] != b[i] {
            return false;
        }
        i = i + 1;
    }
    proof {
        assert(a@ =~= b@);
    }
    true
}

/// The first line of `buf`, as `spec_first_line` describes it.
pub fn first_line(buf: &[u8]) -> (r: Vec<u8>)
    ensures
        r@ == spec_first_line(buf@),
{
    let mut e: usize = 0;
    while e < buf.len() && buf[e] != 0x0a
        invariant
            0 <= e <= buf@.len(),
            forall|k: int| 0 <= k < e ==> buf@[k] != 0x0a,
        decreases buf@.len() - e,
    {
        e = e + 1;
    }
    proof {
        lemma_first_byte_is(buf@, 0x0a, e as int);
    }
    let mut r = copy_range(buf, 0, e);
    if r.len() > 0 && r[r.len() - 1] == 0x0d {
        r.pop();
        proof {
            assert(r@ =~= strip_cr(buf@.take(first_byte(buf@, 0x0a))));
        }
    }
    r
}

/// `s` with leading and trailing ASCII whitespace removed, as `trim_ws`
/// describes it.
pub fn trim_bytes(s: &[u8]) -> (r: Vec<u8>)
    ensures
        r@ == trim_ws(s@),
{
    let mut a: usize = 0;
    while a < s.len() && is_whitespace_byte(s[a])
        invariant
            0 <= a <= s@.len(),
            forall|k: int| 0 <= k < a ==> is_ws(s@[k]),
        decreases s@.len() - a,
    {
        a = a + 1;
    }
    proof {
        lemma_ltrim_is(s@, a as int);
    }
    if a == s.len() {
        proof {
            assert(ltrim(s@) =~= Seq::<u8>::empty());
            assert(rtrim(Seq::<u8>::empty()) =~= Seq::<u8>::empty());
        }
        return Vec::new();
    }
    let mut b: usize = s.len();
    while b > a && is_whitespace_byte(s[b - 1])
        invariant
            a <= b <= s@.len(),
            forall|k: int| b <= k < s@.len() ==> is_ws(s@[k]),
        decreases b,
    {
        b = b - 1;
    }
    // s[a] is not whitespace, so the right scan stopped at some b > a.
    let r = copy_range(s, a, b);
    proof {
        lemma_rtrim_is(s@.skip(a as int), b - a as int);
        assert(s@.skip(a as int).take(b - a as int) =~= s@.subrange(a as int, b as int));
    }
    r
}

/// The whitespace-separated tokens of `line`, as `tokens_of` describes
/// them.
pub fn tokenize(line: &[u8]) -> (r: Vec<Vec<u8>>)
    ensures
        r.deep_view() == tokens_of(line@),
{
    let mut out: Vec<Vec<u8>> = Vec::new();
    let mut i: usize = 0;
    proof {
        assert(out.deep_view() =~= Seq::<Seq<u8>>::empty());
        assert(line@.skip(0) =~= line@);
    }
    while i < line.len()
        invariant
            0 <= i <= line@.len(),
            out.deep_view() + tokens_of(line@.skip(i as int)) == tokens_of(line@),
        decreases line@.len() - i,
    {
        if is_whitespace_byte(line[i]) {
            proof {
                assert(line@.skip(i as int).drop_first() =~= line@.skip(i + 1 as int));
            }
            i = i + 1;
        } else {
            let mut j: usize = i;
            while j < line.len() && !is_whitespace_byte(line[j])
                invariant
                    i <= j <= line@.len(),
                    forall|k: int| i <= k < j ==> !is_ws(line@[k]),
                decreases line@.len() - j,
            {
                j = j + 1;
            }
            let tok = copy_range(line, i, j);
            proof {
                let rest = line@.skip(i as int);
                assert forall|k: int| 0 <= k < j - i implies !is_ws(rest[k]) by {
                    assert(rest[k] == line@[k + i]);
                }
                lemma_first_ws_is(rest, j - i);
                assert(rest.take(j - i) =~= line@.subrange(i as int, j as int));
                assert(rest.skip(j - i) =~= line@.skip(j as int));
            }
            let ghost old_dv = out.deep_view();
            out.push(tok);
            proof {
                assert(out.deep_view() =~~= old_dv.push(tok@));
                assert(out.deep_view() + tokens_of(line@.skip(j as int)) =~= tokens_of(line@));
            }
            i = j;
        }
    }
    proof {
        assert(line@.skip(i as int) =~= Seq::<u8>::empty());
        assert(out.deep_view() + tokens_of(Seq::<u8>::empty()) =~= out.deep_view());
    }
    out
}

/// The lines of `buf`, as `lines_of` describes them.
pub fn split_lines(buf: &[u8]) -> (r: Vec<Vec<u8>>)
    ensures
        r.deep_view() == lines_of(buf@),
{
    let mut out: Vec<Vec<u8>> = Vec::new();
    let mut i: usize = 0;
    proof {
        assert(out.deep_view() =~= Seq::<Seq<u8>>::empty());
        assert(buf@.skip(0) =~= buf@);
    }
    while i < buf.len()
        invariant
            0 <= i <= buf@.len(),
            out.deep_view() + lines_of(buf@.skip(i as int)) == lines_of(buf@),
        decreases buf@.len() - i,
    {
        let mut e: usize = i;
        while e < buf.len() && buf[e] != 0x0a
            invariant
                i <= e <= buf@.len(),
                forall|k: int| i <= k < e ==> buf@[k] != 0x0a,
            decreases buf@.len() - e,
        {
            e = e + 1;
        }
        let mut linev = copy_range(buf, i, e);
        if linev.len() > 0 && linev[linev.len() - 1] == 0x0d {
            linev.pop();
        }
        proof {
            let rest = buf@.skip(i as int);
            assert forall|k: int| 0 <= k < e - i implies rest[k] != 0x0a by {
                assert(rest[k] == buf@[k + i]);
            }
            if e < buf.len() {
                assert(rest[e - i] == buf@[e as int]);
            }
            lemma_first_byte_is(rest, 0x0a, e - i);
            assert(rest.take(e - i) =~= buf@.subrange(i as int, e as int));
            assert(linev@ =~= strip_cr(rest.take(e - i)));
            if e < buf.len() {
                assert(rest.skip(e - i + 1) =~= buf@.skip(e + 1 as int));
            }
        }
        let ghost old_dv = out.deep_view();
        out.push(linev);
        proof {
            assert(out.deep_view() =~~= old_dv.push(linev@));
        }
        if e == buf.len() {
            proof {
                let rest = buf@.skip(i as int);
                assert(lines_of(rest) =~= seq![strip_cr(rest.take(e - i))]);
                assert(out.deep_view() =~= lines_of(buf@));
            }
            return out;
        }
        proof {
            assert(out.deep_view() + lines_of(buf@.skip(e + 1 as int)) =~= lines_of(buf@));
        }
        i = e + 1;
    }
    proof {
        assert(out.deep_view() + lines_of(Seq::<u8>::empty()) =~= out.deep_view());
    }
    out
}

} // verus!
