//! The keyed progress store and its polling endpoint.  The store is a
//! plain association list viewed as a map; writes replace the whole record
//! for a key, so a reader sees either the old record or the new one and
//! never a torn one.

use vstd::prelude::*;

use crate::request::progress_key;
use crate::types::{DownloadProgress, ProgressV};

verus! {

/// The map image of an entry list: later entries win.
pub open spec fn entries_map(s: Seq<(u64, DownloadProgress)>) -> Map<u64, ProgressV>
    decreases s.len(),
{
    if s.len() == 0 {
        Map::empty()
    } else {
        entries_map(s.drop_last()).insert(s.last().0, s.last().1@)
    }
}

/// The entry list without any entry for `k`, order kept.
pub open spec fn drop_key(s: Seq<(u64, DownloadProgress)>, k: u64) -> Seq<(u64, DownloadProgress)>
    decreases s.len(),
{
    if s.len() == 0 {
        Seq::empty()
    } else if s.last().0 == k {
        drop_key(s.drop_last(), k)
    } else {
        drop_key(s.drop_last(), k).push(s.last())
    }
}

/// Dropping a key's entries removes exactly that key from the map image.
proof fn lemma_drop_key_em(s: Seq<(u64, DownloadProgress)>, k: u64)
    ensures
        entries_map(drop_key(s, k)) =~= entries_map(s).remove(k),
    decreases s.len(),
{
    if s.len() > 0 {
        lemma_drop_key_em(s.drop_last(), k);
        if s.last().0 != k {
            let d = drop_key(s.drop_last(), k).push(s.last());
            assert(d.drop_last() =~= drop_key(s.drop_last(), k));
            assert(d.last() == s.last());
        }
    }
}

/// A key is in the map image exactly when some entry carries it.
proof fn lemma_em_contains(s: Seq<(u64, DownloadProgress)>, k: u64)
    ensures
        entries_map(s).contains_key(k) <==> exists|i: int| 0 <= i < s.len() && s[i].0 == k,
    decreases s.len(),
{
    if s.len() > 0 {
        lemma_em_contains(s.drop_last(), k);
        if s.last().0 == k {
            assert(s[s.len() - 1].0 == k);
        } else if entries_map(s).contains_key(k) {
            let i = choose|i: int| 0 <= i < s.drop_last().len() && s.drop_last()[i].0 == k;
            assert(s[i].0 == k);
        } else {
            assert forall|i: int| 0 <= i < s.len() implies s[i].0 != k by {
                if i < s.len() - 1 {
                    assert(s.drop_last()[i].0 == s[i].0);
                }
            }
        }
    }
}

/// The last entry for a key gives the map image's value at that key.
proof fn lemma_em_last_match(s: Seq<(u64, DownloadProgress)>, k: u64, i: int)
    requires
        0 <= i < s.len(),
        s[i].0 == k,
        forall|j: int| i < j < s.len() ==> s[j].0 != k,
    ensures
        entries_map(s).contains_key(k),
        entries_map(s)[k] == s[i].1@,
    decreases s.len(),
{
    if i == s.len() - 1 {
    } else {
        assert(forall|j: int| i < j < s.drop_last().len() ==> s.drop_last()[j].0 != k);
        lemma_em_last_match(s.drop_last(), k, i);
    }
}

/// A process-wide keyed store of in-flight download progress.  One store
/// instance is shared by the orchestrator (writer) and the polling
/// endpoint (reader).
pub struct ProgressStore {
    entries: Vec<(u64, DownloadProgress)>,
}

impl View for ProgressStore {
    type V = Map<u64, ProgressV>;

    closed spec fn view(&self) -> Map<u64, ProgressV> {
        entries_map(self.entries@)
    }
}

impl ProgressStore {
    /// An empty store.
    pub fn new() -> (r: ProgressStore)
        ensures
            r@ == Map::<u64, ProgressV>::empty(),
    {
        ProgressStore { entries: Vec::new() }
    }

    /// Drop every entry for `k`, keeping the others in order.
    fn remove_entries(&mut self, k: u64)
        ensures
            final(self).entries@ == drop_key(old(self).entries@, k),
            final(self)@ == old(self)@.remove(k),
    {
        let n0 = self.entries.len();
        let ghost s = self.entries@;
        let mut kept: Vec<(u64, DownloadProgress)> = Vec::new();
        let mut i: usize = 0;
        while self.entries.len() > 0
            invariant
                n0 == s.len(),
                self.entries@ == s.subrange(i as int, s.len() as int),
                i <= n0,
                kept@ == drop_key(s.subrange(0, i as int), k),
            decreases self.entries@.len(),
        {
            let e = self.entries.remove(0);
            proof {
                assert(e == s[i as int]);
                assert(self.entries@ =~= s.subrange(i + 1, s.len() as int));
                let pre = s.subrange(0, i as int);
                let ext = s.subrange(0, i + 1);
                assert(ext.drop_last() =~= pre);
                assert(ext.last() == s[i as int]);
            }
            if e.0 != k {
                kept.push(e);
            }
            i = i + 1;
        }
        proof {
            assert(s.subrange(0, s.len() as int) =~= s);
            lemma_drop_key_em(s, k);
        }
        self.entries = kept;
    }

    /// Write the whole record for a key, replacing any previous one.
    pub fn write(&mut self, key: u64, record: DownloadProgress)
        ensures
            final(self)@ == old(self)@.insert(key, record@),
    {
        self.remove_entries(key);
        let ghost base = self.entries@;
        self.entries.push((key, record));
        proof {
            let d = base.push((key, record));
            assert(d.drop_last() =~= base);
            assert(d.last() == (key, record));
            assert(entries_map(d) == entries_map(base).insert(key, record@));
            assert(final(self)@ =~= old(self)@.insert(key, record@));
        }
    }

    /// Read the record for a key; a missing entry means "no information
    /// yet", never an error.
    pub fn read(&self, key: u64) -> (r: Option<&DownloadProgress>)
        ensures
            (r is Some) == self@.contains_key(key),
            r is Some ==> r->Some_0@ == self@[key],
    {
        let ghost s = self.entries@;
        let n = self.entries.len();
        let mut i: usize = n;
        while i > 0
            invariant
                n == s.len(),
                s == self.entries@,
                i <= n,
                forall|j: int| i <= j < s.len() ==> s[j].0 != key,
            decreases i,
        {
            i = i - 1;
            if self.entries[i].0 == key {
                proof {
                    lemma_em_last_match(s, key, i as int);
                }
                return Some(&self.entries[i].1);
            }
        }
        proof {
            lemma_em_contains(s, key);
        }
        None
    }

    /// Remove a key's record, as cleanup does after a terminal state.
    pub fn remove(&mut self, key: u64)
        ensures
            final(self)@ == old(self)@.remove(key),
    {
        self.remove_entries(key);
    }
}

/// What a poll returns for a store image and a key: the record's fields,
/// or zeros and the initializing text when nothing is known yet.
pub open spec fn spec_get_progress(m: Map<u64, ProgressV>, key: u64) -> (u64, u64, u64, Seq<
    char,
>) {
    if m.contains_key(key) {
        (m[key].downloaded_bytes, m[key].total_bytes, m[key].eta_seconds, m[key].status)
    } else {
        (0u64, 0u64, 0u64, "Initializing download..."@)
    }
}

/// Poll the live progress of the download for a URL.  Always succeeds: a
/// missing record reads as zero progress, still initializing.
pub fn get_download_progress(store: &ProgressStore, url: &str) -> (r: (u64, u64, u64, String))
    ensures
        r.0 == spec_get_progress(store@, url@.len() as u64).0,
        r.1 == spec_get_progress(store@, url@.len() as u64).1,
        r.2 == spec_get_progress(store@, url@.len() as u64).2,
        r.3@ == spec_get_progress(store@, url@.len() as u64).3,
{
    let key = progress_key(url);
    match store.read(key) {
        Some(p) => (p.downloaded_bytes, p.total_bytes, p.eta_seconds, p.status.clone()),
        None => (0, 0, 0, String::from_str("Initializing download...")),
    }
}

} // verus!
