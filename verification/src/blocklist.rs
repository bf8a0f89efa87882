//! The blocklist and its cache.
//!
//! A blocklist is an immutable-once-published set of hostnames, each held
//! as its exact bytes; matching is exact and case-sensitive.  The cache
//! holds the current list and replaces it wholesale — and only when the
//! fetched set actually differs — so a lookup sees either the old set or
//! the new one, never a mixture.  A failed fetch keeps the previous set:
//! stale-but-available, never empty-on-failure.

use vstd::prelude::*;

use crate::bytes::bytes_equal;

verus! {

/// A set of blocked hostnames.
pub struct Blocklist {
    entries: Vec<Vec<u8>>,
}

impl View for Blocklist {
    type V = Set<Seq<u8>>;

    closed spec fn view(&self) -> Set<Seq<u8>> {
        Set::new(|h: Seq<u8>| self.entries.deep_view().contains(h))
    }
}

impl Blocklist {
    /// The empty blocklist.
    pub fn new() -> (r: Blocklist)
        ensures
            r@ == Set::<Seq<u8>>::empty(),
    {
        let r = Blocklist { entries: Vec::new() };
        proof {
            assert(r.entries.deep_view() =~= Seq::<Seq<u8>>::empty());
            assert(r@ =~= Set::<Seq<u8>>::empty());
        }
        r
    }

    /// Adds `host` to the set.
    pub fn insert(&mut self, host: Vec<u8>)
        ensures
            final(self)@ == old(self)@.insert(host@),
    {
        if !self.contains(host.as_slice()) {
            let ghost olddv = self.entries.deep_view();
            self.entries.push(host);
            proof {
                assert(self.entries.deep_view() =~~= olddv.push(host@));
                assert forall|h: Seq<u8>|
                    self.entries.deep_view().contains(h) == old(self)@.insert(host@).contains(
                        h,
                    ) by {
                    if self.entries.deep_view().contains(h) {
                        let i = choose|i: int|
                            0 <= i < self.entries.deep_view().len()
                                && self.entries.deep_view()[i] == h;
                        if i < olddv.len() {
                            assert(olddv.contains(h));
                        }
                    }
                    if olddv.contains(h) {
                        let i = choose|i: int| 0 <= i < olddv.len() && olddv[i] == h;
                        assert(self.entries.deep_view()[i] == h);
                    }
                    if h == host@ {
                        assert(self.entries.deep_view()[olddv.len() as int] == h);
                    }
                }
                assert(self@ =~= old(self)@.insert(host@));
            }
        } else {
            proof {
                assert(self@ =~= old(self)@.insert(host@));
            }
        }
    }

    /// Whether `host` is in the set.
    pub fn contains(&self, host: &[u8]) -> (r: bool)
        ensures
            r == self@.contains(host@),
    {
        let ghost dv = self.entries.deep_view();
        let mut i: usize = 0;
        while i < self.entries.len()
            invariant
                0 <= i <= self.entries@.len(),
                dv == self.entries.deep_view(),
                forall|k: int| 0 <= k < i ==> dv[k] != host@,
            decreases self.entries@.len() - i,
        {
            proof {
                assert(self.entries@[i as int]@ =~= dv[i as int]);
            }
            if bytes_equal(self.entries[i].as_slice(), host) {
                proof {
                    assert(dv.contains(host@));
                }
                return true;
            }
            i = i + 1;
        }
        proof {
            if dv.contains(host@) {
                let k = choose|k: int| 0 <= k < dv.len() && dv[k] == host@;
                assert(false);
            }
        }
        false
    }

    /// Whether every host of this set is in `other`.
    pub fn is_subset(&self, other: &Blocklist) -> (r: bool)
        ensures
            r == self@.subset_of(other@),
    {
        let ghost dv = self.entries.deep_view();
        let mut i: usize = 0;
        while i < self.entries.len()
            invariant
                0 <= i <= self.entries@.len(),
                dv == self.entries.deep_view(),
                forall|k: int| 0 <= k < i ==> other@.contains(dv[k]),
            decreases self.entries@.len() - i,
        {
            proof {
                assert(self.entries@[i as int]@ =~= dv[i as int]);
            }
            if !other.contains(self.entries[i].as_slice()) {
                proof {
                    assert(dv.contains(dv[i as int]));
                    assert(self@.contains(dv[i as int]));
                }
                return false;
            }
            i = i + 1;
        }
        proof {
            assert forall|h: Seq<u8>| self@.contains(h) implies other@.contains(h) by {
                let k = choose|k: int| 0 <= k < dv.len() && dv[k] == h;
                assert(other@.contains(dv[k]));
            }
        }
        true
    }

    /// Whether the two sets hold exactly the same hosts.
    pub fn set_eq(&self, other: &Blocklist) -> (r: bool)
        ensures
            r == (self@ == other@),
    {
        let r = self.is_subset(other) && other.is_subset(self);
        proof {
            if r {
                assert(self@ =~= other@);
            }
        }
        r
    }
}

/// The current blocklist, replaced wholesale on refresh.
pub struct BlocklistCache {
    current: Blocklist,
}

impl View for BlocklistCache {
    type V = Set<Seq<u8>>;

    closed spec fn view(&self) -> Set<Seq<u8>> {
        self.current@
    }
}

impl BlocklistCache {
    /// A cache that starts out empty, blocking nothing.
    pub fn new() -> (r: BlocklistCache)
        ensures
            r@ == Set::<Seq<u8>>::empty(),
    {
        BlocklistCache { current: Blocklist::new() }
    }

    /// Membership test against the current set.
    pub fn lookup(&self, host: &[u8]) -> (r: bool)
        ensures
            r == self@.contains(host@),
    {
        self.current.contains(host)
    }

    /// Applies the outcome of one fetch: a failed fetch (`None`) keeps the
    /// previous set; a fetched set replaces the current one only when it
    /// differs, and then wholesale.  The result says whether a swap
    /// happened.  Either way the cache afterwards holds exactly one of the
    /// two sets, never a mixture.
    pub fn apply_fetch(&mut self, fetched: Option<Blocklist>) -> (swapped: bool)
        ensures
            final(self)@ == old(self)@ || (fetched matches Some(n) && final(self)@ == n@),
            fetched is None ==> final(self)@ == old(self)@ && !swapped,
            fetched matches Some(n) ==> (swapped == (n@ != old(self)@) && (swapped
                ==> final(self)@ == n@)),
            !swapped ==> final(self)@ == old(self)@,
    {
        match fetched {
            None => false,
            Some(n) => {
                if self.current.set_eq(&n) {
                    false
                } else {
                    self.current = n;
                    true
                }
            },
        }
    }
}

/// "example.com"
pub open spec fn example_host() -> Seq<u8> {
    seq![0x65u8, 0x78, 0x61, 0x6d, 0x70, 0x6c, 0x65, 0x2e, 0x63, 0x6f, 0x6d]
}

/// "httpforever.com"
pub open spec fn httpforever_host() -> Seq<u8> {
    seq![0x68u8, 0x74, 0x74, 0x70, 0x66, 0x6f, 0x72, 0x65, 0x76, 0x65, 0x72, 0x2e, 0x63, 0x6f, 0x6d]
}

/// The blocklist source.  It stands in for the remote authority and
/// returns the complete block set, no deltas.
pub fn proxy_fetch_blocklist() -> (r: Blocklist)
    ensures
        r@ == Set::<Seq<u8>>::empty().insert(example_host()).insert(httpforever_host()),
{
    let mut r = Blocklist::new();
    let e: Vec<u8> = vec![0x65u8, 0x78, 0x61, 0x6d, 0x70, 0x6c, 0x65, 0x2e, 0x63, 0x6f, 0x6d];
    let h: Vec<u8> = vec![
        0x68u8, 0x74, 0x74, 0x70, 0x66, 0x6f, 0x72, 0x65, 0x76, 0x65, 0x72, 0x2e, 0x63, 0x6f,
        0x6d,
    ];
    proof {
        assert(e@ =~= example_host());
        assert(h@ =~= httpforever_host());
    }
    r.insert(e);
    r.insert(h);
    r
}

} // verus!
