//! Per-series track preferences.
//!
//! A mapping from series id to the tracks the user last chose there.
//! Entries are only ever added or changed, never removed; an absent entry
//! means "no preference". The surrounding process persists the entries and
//! hands them back on the next start.

use vstd::prelude::*;

use crate::text::str_eq;
use crate::types::TrackPreference;

verus! {

/// One series' preference.
#[derive(Debug, Clone, PartialEq)]
pub struct PrefEntry {
    pub series_id: String,
    pub pref: TrackPreference,
}

/// The preference stored for a series: the first entry with that id.
pub open spec fn spec_get(entries: Seq<PrefEntry>, series_id: Seq<char>) -> Option<TrackPreference>
    decreases entries.len(),
{
    if entries.len() == 0 {
        None
    } else if entries[0].series_id@ == series_id {
        Some(entries[0].pref)
    } else {
        spec_get(entries.skip(1), series_id)
    }
}

/// A preference that prefers nothing; the base for a series' first change.
pub open spec fn empty_pref() -> TrackPreference {
    TrackPreference {
        audio_language: None,
        audio_title: None,
        subtitle_language: None,
        subtitle_title: None,
        is_subtitle_enabled: false,
    }
}

/// The stored preference for a series, or the empty one.
pub open spec fn pref_or_empty(entries: Seq<PrefEntry>, series_id: Seq<char>) -> TrackPreference {
    match spec_get(entries, series_id) {
        Some(p) => p,
        None => empty_pref(),
    }
}

/// The preference map of one user: series id to track preference.
#[derive(Debug, Clone, PartialEq)]
pub struct PrefStore {
    pub entries: Vec<PrefEntry>,
}

proof fn lemma_spec_get_update(entries: Seq<PrefEntry>, idx: int, e: PrefEntry)
    requires
        0 <= idx < entries.len(),
        e.series_id@ == entries[idx].series_id@,
        forall|q: int| 0 <= q < idx ==> entries[q].series_id@ != entries[idx].series_id@,
    ensures
        spec_get(entries.update(idx, e), entries[idx].series_id@) == Some(e.pref),
        forall|k: Seq<char>|
            k != entries[idx].series_id@ ==> #[trigger] spec_get(entries.update(idx, e), k)
                == spec_get(entries, k),
    decreases idx,
{
    let updated = entries.update(idx, e);
    if idx == 0 {
        assert(updated[0] == e);
        assert(updated.skip(1) =~= entries.skip(1));
        assert forall|k: Seq<char>| k != entries[idx].series_id@ implies #[trigger] spec_get(
            updated,
            k,
        ) == spec_get(entries, k) by {
            assert(spec_get(updated, k) == spec_get(updated.skip(1), k));
            assert(spec_get(entries, k) == spec_get(entries.skip(1), k));
        }
    } else {
        assert(updated[0] == entries[0]);
        assert(entries.skip(1)[idx - 1] == entries[idx]);
        assert(forall|q: int|
            0 <= q < idx - 1 ==> #[trigger] entries.skip(1)[q].series_id@
                != entries[idx].series_id@) by {
            assert(forall|q: int| 0 <= q < idx - 1 ==> entries.skip(1)[q] == entries[q + 1]);
        }
        lemma_spec_get_update(entries.skip(1), idx - 1, e);
        assert(updated.skip(1) =~= entries.skip(1).update(idx - 1, e));
        assert(entries[0].series_id@ != entries[idx].series_id@);
        assert(spec_get(updated, entries[idx].series_id@) == Some(e.pref));
        assert forall|k: Seq<char>| k != entries[idx].series_id@ implies #[trigger] spec_get(
            updated,
            k,
        ) == spec_get(entries, k) by {
            if k == entries[0].series_id@ {
            } else {
                assert(spec_get(updated, k) == spec_get(updated.skip(1), k));
                assert(spec_get(entries, k) == spec_get(entries.skip(1), k));
            }
        }
    }
}

proof fn lemma_spec_get_push(entries: Seq<PrefEntry>, e: PrefEntry)
    requires
        spec_get(entries, e.series_id@) is None,
    ensures
        spec_get(entries.push(e), e.series_id@) == Some(e.pref),
        forall|k: Seq<char>|
            k != e.series_id@ ==> #[trigger] spec_get(entries.push(e), k) == spec_get(entries, k),
    decreases entries.len(),
{
    let pushed = entries.push(e);
    if entries.len() == 0 {
        assert(pushed[0] == e);
        assert(pushed.skip(1) =~= Seq::<PrefEntry>::empty());
        assert forall|k: Seq<char>| k != e.series_id@ implies #[trigger] spec_get(pushed, k)
            == spec_get(entries, k) by {
            assert(spec_get(pushed, k) == spec_get(pushed.skip(1), k));
        }
    } else {
        assert(pushed[0] == entries[0]);
        assert(pushed.skip(1) =~= entries.skip(1).push(e));
        assert(entries[0].series_id@ != e.series_id@);
        lemma_spec_get_push(entries.skip(1), e);
        assert(spec_get(pushed, e.series_id@) == Some(e.pref));
        assert forall|k: Seq<char>| k != e.series_id@ implies #[trigger] spec_get(pushed, k)
            == spec_get(entries, k) by {
            if k == entries[0].series_id@ {
            } else {
                assert(spec_get(pushed, k) == spec_get(pushed.skip(1), k));
                assert(spec_get(entries, k) == spec_get(entries.skip(1), k));
            }
        }
    }
}

impl PrefStore {
    /// An empty map.
    pub fn new() -> (r: PrefStore)
        ensures
            r.entries@.len() == 0,
            forall|k: Seq<char>| #[trigger] spec_get(r.entries@, k) is None,
    {
        let entries: Vec<PrefEntry> = Vec::new();
        PrefStore { entries }
    }

    /// Rebuild the map from persisted entries; where an id repeats, the
    /// first occurrence wins, as the lookup does.
    pub fn from_entries(entries: Vec<PrefEntry>) -> (r: PrefStore)
        ensures
            r.entries@ == entries@,
    {
        PrefStore { entries }
    }

    /// The stored preference for a series, if any.
    pub fn get(&self, series_id: &str) -> (r: Option<TrackPreference>)
        ensures
            r == spec_get(self.entries@, series_id@),
    {
        proof {
            assert(self.entries@.skip(0) =~= self.entries@);
        }
        let mut i: usize = 0;
        while i < self.entries.len()
            invariant
                0 <= i <= self.entries@.len(),
                spec_get(self.entries@, series_id@) == spec_get(
                    self.entries@.skip(i as int),
                    series_id@,
                ),
            decreases self.entries@.len() - i,
        {
            if str_eq(self.entries[i].series_id.as_str(), series_id) {
                proof {
                    assert(self.entries@.skip(i as int)[0] == self.entries@[i as int]);
                }
                return Some(self.entries[i].pref.duplicate());
            }
            proof {
                assert(self.entries@.skip(i as int)[0] == self.entries@[i as int]);
                assert(self.entries@.skip(i as int).skip(1) =~= self.entries@.skip(i + 1));
            }
            i += 1;
        }
        proof {
            assert(self.entries@.skip(i as int).len() == 0);
        }
        None
    }

    /// Store a preference for a series, replacing the stored one or adding
    /// a first. Every other series keeps its entry.
    pub fn put(&mut self, series_id: &str, pref: TrackPreference)
        ensures
            spec_get(final(self).entries@, series_id@) == Some(pref),
            forall|k: Seq<char>|
                k != series_id@ ==> #[trigger] spec_get(final(self).entries@, k) == spec_get(
                    old(self).entries@,
                    k,
                ),
    {
        let mut i: usize = 0;
        while i < self.entries.len()
            invariant
                0 <= i <= self.entries@.len(),
                self.entries@ == old(self).entries@,
                forall|q: int| 0 <= q < i ==> old(self).entries@[q].series_id@ != series_id@,
            decreases self.entries@.len() - i,
        {
            if str_eq(self.entries[i].series_id.as_str(), series_id) {
                let entry = PrefEntry { series_id: self.entries[i].series_id.clone(), pref };
                let ghost before = self.entries@;
                let ghost idx = i as int;
                let ghost e = entry;
                self.entries[i] = entry;
                proof {
                    lemma_spec_get_update(before, idx, e);
                }
                return ;
            }
            i += 1;
        }
        let entry = PrefEntry { series_id: String::from_str(series_id), pref };
        let ghost before = self.entries@;
        let ghost e = entry;
        proof {
            lemma_spec_get_none(before, series_id@, 0);
            lemma_spec_get_push(before, e);
        }
        self.entries.push(entry);
    }
}

proof fn lemma_spec_get_none(entries: Seq<PrefEntry>, series_id: Seq<char>, at: int)
    requires
        0 <= at <= entries.len(),
        forall|q: int| 0 <= q < entries.len() ==> entries[q].series_id@ != series_id,
    ensures
        spec_get(entries, series_id) is None,
    decreases entries.len(),
{
    if entries.len() > 0 {
        assert(forall|q: int|
            0 <= q < entries.skip(1).len() ==> #[trigger] entries.skip(1)[q].series_id@
                != series_id) by {
            assert(forall|q: int|
                0 <= q < entries.skip(1).len() ==> entries.skip(1)[q] == entries[q + 1]);
        }
        lemma_spec_get_none(entries.skip(1), series_id, 0);
    }
}

} // verus!
