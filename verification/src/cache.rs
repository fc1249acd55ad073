//! Pagination cursor cache: a process-wide keyed store mapping a query
//! fingerprint and a target page number to the opaque upstream cursor that
//! continues the listing there. Entries are only ever added — the newest
//! entry for a key wins, and nothing is evicted, so the view is the map of
//! the most recent write per key.
use vstd::prelude::*;

verus! {

use vstd::string::StringExecFns;
use vstd::string::StringSliceAdditionalSpecFns;
use crate::model::{ListParams, ListParamsView};
use crate::strutil::{dec_of, u64_to_dec, u32_to_dec};

/// One step of the 64-bit FNV-1a hash.
pub open spec fn fnv1a_update(h: u64, b: u8) -> u64 {
    (((h ^ (b as u64)) as nat * 0x100000001b3) % 0x1_0000_0000_0000_0000) as u64
}

/// The 64-bit FNV-1a hash of a byte sequence.
pub open spec fn fnv1a(bytes: Seq<u8>) -> u64
    decreases bytes.len(),
{
    if bytes.len() == 0 {
        0xcbf29ce484222325u64
    } else {
        fnv1a_update(fnv1a(bytes.drop_last()), bytes.last())
    }
}

/// Hashes a credential to a short stable string, so that cache keys never
/// hold the credential itself.
pub fn simple_hash(s: &str) -> (r: String)
    ensures
        r@ == dec_of(fnv1a(s.spec_bytes()) as int),
{
    let bytes = s.as_bytes();
    let ghost bv = s.spec_bytes();
    let mut h: u64 = 0xcbf29ce484222325;
    let mut i: usize = 0;
    proof {
        assert(bv.take(0) =~= Seq::<u8>::empty());
    }
    while i < bytes.len()
        invariant
            i <= bytes.len(),
            bv == bytes@,
            h == fnv1a(bv.take(i as int)),
        decreases bytes.len() - i,
    {
        h = (h ^ (bytes[i] as u64)).wrapping_mul(0x100000001b3);
        proof {
            assert(bv.take(i + 1).drop_last() =~= bv.take(i as int));
            assert(bv.take(i + 1).last() == bv[i as int]);
        }
        i += 1;
    }
    proof {
        assert(bv.take(bytes@.len() as int) =~= bv);
    }
    u64_to_dec(h)
}

/// The page size a list query effectively asks for: ten unless overridden.
pub open spec fn effective_max(params: ListParamsView) -> u32 {
    match params.max_results {
        Some(m) => m,
        None => 10,
    }
}

/// An optional filter string, with absence normalized to the empty string.
pub open spec fn opt_or_empty(o: Option<Seq<char>>) -> Seq<char> {
    match o {
        Some(s) => s,
        None => Seq::empty(),
    }
}

/// The fingerprint of a caller's list query: the hashed credential and the
/// normalized filters (free text, label filter, page size), joined with
/// underscores. It depends on nothing else, so identical filters by the
/// same caller always fingerprint identically.
pub open spec fn fingerprint_of(cred: Seq<u8>, params: ListParamsView) -> Seq<char> {
    dec_of(fnv1a(cred) as int) + "_"@ + opt_or_empty(params.q) + "_"@ + opt_or_empty(
        params.label_ids,
    ) + "_"@ + dec_of(effective_max(params) as int)
}

/// Computes the fingerprint of a caller's list query.
pub fn fingerprint(credential: &str, params: &ListParams) -> (r: String)
    ensures
        r@ == fingerprint_of(credential.spec_bytes(), params@),
{
    let mut r = simple_hash(credential);
    r.append("_");
    match &params.q {
        Some(q) => r.append(q.as_str()),
        None => (),
    }
    r.append("_");
    match &params.label_ids {
        Some(l) => r.append(l.as_str()),
        None => (),
    }
    r.append("_");
    let max = match params.max_results {
        Some(m) => m,
        None => 10,
    };
    let maxs = u32_to_dec(max);
    r.append(maxs.as_str());
    proof {
        assert(r@ =~= fingerprint_of(credential.spec_bytes(), params@));
    }
    r
}

/// Fingerprinting is idempotent, and blind to everything but the caller's
/// credential and the normalized filters: two queries with the same free
/// text, label filter and page size fingerprint identically, whatever their
/// page number, explicit cursor or collapse flag.
pub proof fn lemma_fingerprint_idempotent(cred: Seq<u8>, p1: ListParamsView, p2: ListParamsView)
    requires
        p1.q == p2.q,
        p1.label_ids == p2.label_ids,
        p1.max_results == p2.max_results,
    ensures
        fingerprint_of(cred, p1) == fingerprint_of(cred, p2),
{
}

struct CacheEntry {
    fp: String,
    page: u32,
    cursor: String,
}

ghost struct CacheEntryView {
    fp: Seq<char>,
    page: u32,
    cursor: Seq<char>,
}

impl View for CacheEntry {
    type V = CacheEntryView;

    closed spec fn view(&self) -> CacheEntryView {
        CacheEntryView { fp: self.fp@, page: self.page, cursor: self.cursor@ }
    }
}

impl DeepView for CacheEntry {
    type V = CacheEntryView;

    closed spec fn deep_view(&self) -> CacheEntryView {
        self.view()
    }
}

spec fn entries_map(es: Seq<CacheEntryView>) -> Map<(Seq<char>, u32), Seq<char>>
    decreases es.len(),
{
    if es.len() == 0 {
        Map::empty()
    } else {
        entries_map(es.drop_last()).insert((es.last().fp, es.last().page), es.last().cursor)
    }
}

/// The cursor cache. Its view is the map from `(fingerprint, page)` to the
/// most recently stored cursor for that key.
pub struct CursorCache {
    entries: Vec<CacheEntry>,
}

impl View for CursorCache {
    type V = Map<(Seq<char>, u32), Seq<char>>;

    closed spec fn view(&self) -> Map<(Seq<char>, u32), Seq<char>> {
        entries_map(self.entries.deep_view())
    }
}

impl CursorCache {
    /// An empty cache, holding no cursor for any key.
    pub fn new() -> (r: CursorCache)
        ensures
            r@ == Map::<(Seq<char>, u32), Seq<char>>::empty(),
    {
        let r = CursorCache { entries: Vec::new() };
        proof {
            assert(r.entries.deep_view() =~= Seq::<CacheEntryView>::empty());
        }
        r
    }

    /// Stores a cursor for `(fingerprint, page)`. The last write for a key
    /// wins: the most recent listing supersedes any earlier cursor.
    pub fn store(&mut self, fp: &str, page: u32, cursor: String)
        ensures
            final(self)@ == old(self)@.insert((fp@, page), cursor@),
    {
        let entry = CacheEntry { fp: fp.to_owned(), page, cursor };
        let ghost prev = self.entries.deep_view();
        self.entries.push(entry);
        proof {
            assert(self.entries.deep_view() =~= prev.push(entry@));
            assert(prev.push(entry@).drop_last() =~= prev);
        }
    }

    /// Looks a cursor up by `(fingerprint, page)`: the most recently stored
    /// cursor for that key, or nothing when no listing has reached it yet.
    pub fn lookup(&self, fp: &str, page: u32) -> (r: Option<String>)
        ensures
            match r {
                Some(c) => self@.contains_key((fp@, page)) && c@ == self@[(fp@, page)],
                None => !self@.contains_key((fp@, page)),
            },
    {
        let ghost ev = self.entries.deep_view();
        let ghost key = (fp@, page);
        let mut i = self.entries.len();
        proof {
            assert(ev.take(self.entries.len() as int) =~= ev);
        }
        while i > 0
            invariant
                i <= self.entries.len(),
                key == (fp@, page),
                ev == self.entries.deep_view(),
                ev.len() == self.entries.len(),
                entries_map(ev).contains_key(key) == entries_map(ev.take(i as int)).contains_key(
                    key,
                ),
                entries_map(ev).contains_key(key) ==> entries_map(ev)[key] == entries_map(
                    ev.take(i as int),
                )[key],
            decreases i,
        {
            let entry = &self.entries[i - 1];
            proof {
                assert(ev.take(i as int).drop_last() =~= ev.take(i - 1));
                assert(ev.take(i as int).last() == ev[i - 1]);
                assert(ev[i - 1] == entry@);
            }
            if entry.page == page && crate::strutil::str_eq(entry.fp.as_str(), fp) {
                proof {
                    assert((ev[i - 1].fp, ev[i - 1].page) == key);
                    assert(entries_map(ev.take(i as int)).contains_key(key));
                    assert(entries_map(ev.take(i as int))[key] == ev[i - 1].cursor);
                }
                return Some(entry.cursor.clone());
            }
            proof {
                assert((ev[i - 1].fp, ev[i - 1].page) != key);
                assert(entries_map(ev.take(i as int)).contains_key(key) == entries_map(
                    ev.take(i - 1),
                ).contains_key(key));
                assert(entries_map(ev.take(i as int)).contains_key(key)
                    ==> entries_map(ev.take(i as int))[key] == entries_map(ev.take(i - 1))[key]);
            }
            i -= 1;
        }
        proof {
            assert(ev.take(0) =~= Seq::<CacheEntryView>::empty());
        }
        None
    }
}

} // verus!
